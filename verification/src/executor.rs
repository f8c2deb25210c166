//! Running a program: the sandbox settings of a run, the report `isolate`
//! writes about it, and the verdict drawn from that report.

use vstd::prelude::*;
use vstd::utf8::{decode_utf8, valid_utf8};
use crate::models::SubmissionStatus;
use crate::isolate::IsolateRunArgs;
use crate::text::{chars_of, text_of_range, parse_unsigned_range, parse_i32_range, parse_unsigned,
    parse_i32_spec, joined, lossy_text, utf8_text, lossy_utf8};

verus! {

/// What a run produced.
pub struct ExecuteResult {
    pub stdout: String,
    pub stderr: String,
    pub exit_code: i32,
    pub status: SubmissionStatus,
    pub time_ms: u64,
    pub memory_kb: u64,
}

/// Runs programs inside a sandbox.
pub struct Executor;

// ---------------------------------------------------------------------------
// Lines of a text
// ---------------------------------------------------------------------------

/// The index of the first line feed in `s`, or its length when there is none.
pub open spec fn line_break(s: Seq<char>) -> int
    decreases s.len(),
{
    if s.len() == 0 {
        0
    } else if s[0] == '\n' {
        0
    } else {
        1 + line_break(s.drop_first())
    }
}

pub proof fn lemma_line_break_bounds(s: Seq<char>)
    ensures
        0 <= line_break(s) <= s.len(),
        forall|j: int| 0 <= j < line_break(s) ==> s[j] != '\n',
        line_break(s) < s.len() ==> s[line_break(s)] == '\n',
    decreases s.len(),
{
    if s.len() > 0 && s[0] != '\n' {
        lemma_line_break_bounds(s.drop_first());
        assert forall|j: int| 0 <= j < line_break(s) implies s[j] != '\n' by {
            if j > 0 {
                assert(s[j] == s.drop_first()[j - 1]);
            }
        }
    }
}

/// A line ended by a line feed loses a carriage return before it.
pub open spec fn strip_cr(l: Seq<char>) -> Seq<char> {
    if l.len() > 0 && l.last() == '\r' {
        l.drop_last()
    } else {
        l
    }
}

/// `str::lines`: the text split at `\n` and `\r\n`; a final line ending adds
/// no empty line.
pub open spec fn text_lines(s: Seq<char>) -> Seq<Seq<char>>
    decreases s.len(),
{
    if s.len() == 0 {
        seq![]
    } else {
        let k = line_break(s);
        proof {
            lemma_line_break_bounds(s);
        }
        if k >= s.len() {
            seq![s]
        } else {
            seq![strip_cr(s.subrange(0, k))] + text_lines(s.subrange(k + 1, s.len() as int))
        }
    }
}

// ---------------------------------------------------------------------------
// The run report
// ---------------------------------------------------------------------------

/// The facts a run report gives, as read line by line.
pub struct MetaFacts {
    /// Every `time` value, in order (seconds, as written).
    pub times: Seq<Seq<char>>,
    pub max_rss: u64,
    pub cg_mem: Option<u64>,
    pub exit_code: i32,
    pub exitsig: Option<i32>,
    pub status: Option<Seq<char>>,
}

/// The facts before any line is read.
pub open spec fn no_facts() -> MetaFacts {
    MetaFacts {
        times: seq![],
        max_rss: 0,
        cg_mem: None,
        exit_code: 0,
        exitsig: None,
        status: None,
    }
}

/// The index of the first `:` in `l`, or its length when there is none.
pub open spec fn colon_at(l: Seq<char>) -> int
    decreases l.len(),
{
    if l.len() == 0 {
        0
    } else if l[0] == ':' {
        0
    } else {
        1 + colon_at(l.drop_first())
    }
}

/// What one `key:value` line adds. Lines without `:`, unknown keys and
/// values that do not parse change nothing.
pub open spec fn apply_line(f: MetaFacts, l: Seq<char>) -> MetaFacts {
    let c = colon_at(l);
    if c >= l.len() {
        f
    } else {
        let key = l.subrange(0, c);
        let val = l.subrange(c + 1, l.len() as int);
        if key == "time"@ {
            MetaFacts { times: f.times.push(val), ..f }
        } else if key == "max-rss"@ {
            match parse_unsigned(val, u64::MAX as int) {
                Some(v) => MetaFacts { max_rss: v as u64, ..f },
                None => f,
            }
        } else if key == "cg-mem"@ {
            match parse_unsigned(val, u64::MAX as int) {
                Some(v) => MetaFacts { cg_mem: Some(v as u64), ..f },
                None => f,
            }
        } else if key == "exitcode"@ {
            match parse_i32_spec(val) {
                Some(v) => MetaFacts { exit_code: v as i32, ..f },
                None => f,
            }
        } else if key == "exitsig"@ {
            match parse_i32_spec(val) {
                Some(v) => MetaFacts { exitsig: Some(v as i32), ..f },
                None => f,
            }
        } else if key == "status"@ {
            MetaFacts { status: Some(val), ..f }
        } else {
            f
        }
    }
}

/// The facts of a sequence of lines, read in order.
pub open spec fn apply_lines(f: MetaFacts, ls: Seq<Seq<char>>) -> MetaFacts
    decreases ls.len(),
{
    if ls.len() == 0 {
        f
    } else {
        apply_lines(apply_line(f, ls[0]), ls.drop_first())
    }
}

/// The facts of a whole report.
pub open spec fn report_facts(content: Seq<char>) -> MetaFacts {
    apply_lines(no_facts(), text_lines(content))
}

/// A run report, read.
pub struct MetaReport {
    pub times: Vec<String>,
    pub max_rss: u64,
    pub cg_mem: Option<u64>,
    pub exit_code: i32,
    pub exitsig: Option<i32>,
    pub status: Option<String>,
}

impl MetaReport {
    /// The facts the report holds.
    pub open spec fn facts(self) -> MetaFacts {
        MetaFacts {
            times: self.times@.map_values(|t: String| t@),
            max_rss: self.max_rss,
            cg_mem: self.cg_mem,
            exit_code: self.exit_code,
            exitsig: self.exitsig,
            status: match self.status {
                Some(s) => Some(s@),
                None => None,
            },
        }
    }
}

proof fn lemma_line_break_at(s: Seq<char>, k: int)
    requires
        0 <= k <= s.len(),
        forall|j: int| 0 <= j < k ==> s[j] != '\n',
        k < s.len() ==> s[k] == '\n',
    ensures
        line_break(s) == k,
    decreases k,
{
    if k > 0 {
        assert(s[0] != '\n');
        let t = s.drop_first();
        assert forall|j: int| 0 <= j < k - 1 implies t[j] != '\n' by {
            assert(t[j] == s[j + 1]);
        }
        lemma_line_break_at(t, k - 1);
    }
}

proof fn lemma_colon_at(l: Seq<char>, k: int)
    requires
        0 <= k <= l.len(),
        forall|j: int| 0 <= j < k ==> l[j] != ':',
        k < l.len() ==> l[k] == ':',
    ensures
        colon_at(l) == k,
    decreases k,
{
    if k > 0 {
        assert(l[0] != ':');
        let t = l.drop_first();
        assert forall|j: int| 0 <= j < k - 1 implies t[j] != ':' by {
            assert(t[j] == l[j + 1]);
        }
        lemma_colon_at(t, k - 1);
    }
}

proof fn lemma_apply_lines_cons(f: MetaFacts, a: Seq<char>, rest: Seq<Seq<char>>)
    ensures
        apply_lines(f, seq![a] + rest) == apply_lines(apply_line(f, a), rest),
{
    let ls = seq![a] + rest;
    assert(ls[0] == a);
    assert(ls.drop_first() =~= rest);
}

/// Whether `v[lo..hi]` spells `word`.
fn range_is(v: &Vec<char>, lo: usize, hi: usize, word: &str) -> (b: bool)
    requires
        lo <= hi <= v@.len(),
    ensures
        b == (v@.subrange(lo as int, hi as int) == word@),
{
    let w = chars_of(word);
    if hi - lo != w.len() {
        return false;
    }
    let mut i: usize = 0;
    while i < w.len()
        invariant
            lo <= hi <= v@.len(),
            hi - lo == w@.len(),
            w@ == word@,
            i <= w@.len(),
            forall|j: int| 0 <= j < i ==> v@[lo + j] == w@[j],
        decreases w.len() - i,
    {
        if v[lo + i] != w[i] {
            assert(v@.subrange(lo as int, hi as int)[i as int] != w@[i as int]);
            return false;
        }
        i = i + 1;
    }
    assert(v@.subrange(lo as int, hi as int) =~= word@);
    true
}

impl MetaReport {
    /// A report with no lines read.
    pub fn empty() -> (r: MetaReport)
        ensures
            r.facts() == no_facts(),
    {
        let r = MetaReport {
            times: Vec::new(),
            max_rss: 0,
            cg_mem: None,
            exit_code: 0,
            exitsig: None,
            status: None,
        };
        assert(r.facts().times =~= Seq::<Seq<char>>::empty());
        r
    }

    /// Reads the line `v[lo..hi]` into the report.
    fn read_line(&mut self, v: &Vec<char>, lo: usize, hi: usize)
        requires
            lo <= hi <= v@.len(),
        ensures
            final(self).facts() == apply_line(old(self).facts(), v@.subrange(lo as int, hi as int)),
    {
        let ghost l = v@.subrange(lo as int, hi as int);
        let mut c = lo;
        while c < hi && v[c] != ':'
            invariant
                lo <= c <= hi <= v@.len(),
                forall|j: int| lo <= j < c ==> v@[j] != ':',
            decreases hi - c,
        {
            c = c + 1;
        }
        proof {
            assert forall|j: int| 0 <= j < c - lo implies l[j] != ':' by {
                assert(l[j] == v@[lo + j]);
            }
            lemma_colon_at(l, c - lo);
        }
        if c == hi {
            return ;
        }
        let vs = c + 1;
        assert(l.subrange(0, c - lo) =~= v@.subrange(lo as int, c as int));
        assert(l.subrange(c - lo + 1, l.len() as int) =~= v@.subrange(vs as int, hi as int));
        if range_is(v, lo, c, "time") {
            let t = text_of_range(v, vs, hi);
            let ghost old_times = self.times@;
            self.times.push(t);
            assert(self.times@.map_values(|t: String| t@) =~= old_times.map_values(|t: String| t@).push(
                v@.subrange(vs as int, hi as int),
            ));
        } else if range_is(v, lo, c, "max-rss") {
            match parse_unsigned_range(v, vs, hi, u64::MAX) {
                Some(x) => { self.max_rss = x; },
                None => {},
            }
        } else if range_is(v, lo, c, "cg-mem") {
            match parse_unsigned_range(v, vs, hi, u64::MAX) {
                Some(x) => { self.cg_mem = Some(x); },
                None => {},
            }
        } else if range_is(v, lo, c, "exitcode") {
            match parse_i32_range(v, vs, hi) {
                Some(x) => { self.exit_code = x; },
                None => {},
            }
        } else if range_is(v, lo, c, "exitsig") {
            match parse_i32_range(v, vs, hi) {
                Some(x) => { self.exitsig = Some(x); },
                None => {},
            }
        } else if range_is(v, lo, c, "status") {
            self.status = Some(text_of_range(v, vs, hi));
        }
    }
}

/// Reads a run report written by `isolate --meta`: one `key:value` per line.
pub fn parse_meta(content: &str) -> (r: MetaReport)
    ensures
        r.facts() == report_facts(content@),
{
    let v = chars_of(content);
    let n = v.len();
    let mut report = MetaReport::empty();
    let mut pos: usize = 0;
    assert(v@.subrange(0, n as int) =~= v@);
    while pos < n
        invariant
            n == v@.len(),
            v@ == content@,
            pos <= n,
            report_facts(content@) == apply_lines(report.facts(), text_lines(v@.subrange(pos as int, n as int))),
        decreases n - pos,
    {
        let ghost s = v@.subrange(pos as int, n as int);
        let ghost before = report.facts();
        let mut k = pos;
        while k < n && v[k] != '\n'
            invariant
                pos <= k <= n,
                n == v@.len(),
                forall|j: int| pos <= j < k ==> v@[j] != '\n',
            decreases n - k,
        {
            k = k + 1;
        }
        proof {
            assert forall|j: int| 0 <= j < k - pos implies s[j] != '\n' by {
                assert(s[j] == v@[pos + j]);
            }
            lemma_line_break_at(s, k - pos);
        }
        if k == n {
            report.read_line(&v, pos, n);
            proof {
                assert(text_lines(s) == seq![s]);
                lemma_apply_lines_cons(before, s, seq![]);
                assert(seq![s] =~= seq![s] + Seq::<Seq<char>>::empty());
                assert(v@.subrange(n as int, n as int) =~= Seq::<char>::empty());
            }
            pos = n;
        } else {
            let e = if k > pos && v[k - 1] == '\r' {
                k - 1
            } else {
                k
            };
            proof {
                let head = s.subrange(0, k - pos);
                if k > pos && v@[k - 1] == '\r' {
                    assert(head.last() == '\r');
                    assert(strip_cr(head) =~= v@.subrange(pos as int, e as int));
                } else {
                    if k > pos {
                        assert(head.len() == k - pos);
                        assert(head[k - pos - 1] == s[k - pos - 1]);
                        assert(s[k - pos - 1] == v@[k - 1]);
                        assert(head.last() != '\r');
                    }
                    assert(strip_cr(head) == head);
                    assert(head =~= v@.subrange(pos as int, e as int));
                }
                assert(s.subrange(k - pos + 1, s.len() as int) =~= v@.subrange(k + 1, n as int));
                lemma_apply_lines_cons(before, strip_cr(head), text_lines(v@.subrange(k + 1, n as int)));
            }
            report.read_line(&v, pos, e);
            pos = k + 1;
        }
    }
    report
}

// ---------------------------------------------------------------------------
// The verdict
// ---------------------------------------------------------------------------

/// `a - b`, or zero when `b` is larger.
pub open spec fn sat_sub(a: u64, b: u64) -> u64 {
    if a >= b {
        (a - b) as u64
    } else {
        0
    }
}

/// The memory a run used: the control-group figure when there is one, else
/// the peak resident set.
pub open spec fn used_memory(f: MetaFacts) -> u64 {
    match f.cg_mem {
        Some(c) => c,
        None => f.max_rss,
    }
}

/// The verdict on a run from its report. A run killed by signal 9 or 11
/// within 4096 KB of the memory limit ran out of memory; another killed run
/// failed at run time; a timed out run exceeded the time limit; a report
/// status `isolate` does not otherwise use is an internal error; with no
/// status a non-zero exit code is a run-time error.
pub open spec fn verdict(f: MetaFacts, memory_limit_kb: u64) -> SubmissionStatus {
    match f.status {
        Some(s) => if s == "TO"@ {
            SubmissionStatus::TimeLimitExceeded
        } else if s == "SG"@ {
            if (f.exitsig == Some(9i32) || f.exitsig == Some(11i32)) && used_memory(f) >= sat_sub(
                memory_limit_kb,
                4096,
            ) {
                SubmissionStatus::MemoryLimitExceeded
            } else {
                SubmissionStatus::RuntimeError
            }
        } else if s == "RE"@ {
            SubmissionStatus::RuntimeError
        } else {
            SubmissionStatus::InternalError
        },
        None => if f.exit_code != 0 {
            SubmissionStatus::RuntimeError
        } else {
            SubmissionStatus::Accepted
        },
    }
}

/// The marker appended to output cut at the limit.
pub open spec fn truncation_marker() -> Seq<char> {
    "... [Output Truncated]"@
}

/// What is kept of a captured output file: nothing when it could not be
/// read; the first `limit` bytes, decoded leniently and marked, when it is
/// longer than `limit`; otherwise its text, or nothing when it is not UTF-8.
pub open spec fn kept_output(content: Option<Seq<u8>>, limit: usize) -> Seq<char> {
    match content {
        None => seq![],
        Some(b) => if b.len() > limit {
            lossy_utf8(b.subrange(0, limit as int)) + truncation_marker()
        } else if valid_utf8(b) {
            decode_utf8(b)
        } else {
            seq![]
        },
    }
}

impl Executor {
    /// The sandbox settings of a run: the given limits, the standard input
    /// and output files of the sandbox, the report file, and control groups.
    pub fn run_args<'a>(
        exec_cmd: &'a [String],
        time_limit_ms: u64,
        memory_limit_kb: u64,
        meta_file: &'a str,
    ) -> (r: IsolateRunArgs<'a>)
        ensures
            r.cmd == exec_cmd,
            r.time_limit_ms == Some(time_limit_ms),
            r.memory_limit_kb == Some(memory_limit_kb),
            r.stdin_file matches Some(f) && f@ == "stdin.txt"@,
            r.stdout_file matches Some(f) && f@ == "stdout.txt"@,
            r.stderr_file matches Some(f) && f@ == "stderr.txt"@,
            r.meta_file == Some(meta_file),
            r.use_cg,
    {
        IsolateRunArgs {
            cmd: exec_cmd,
            time_limit_ms: Some(time_limit_ms),
            memory_limit_kb: Some(memory_limit_kb),
            stdin_file: Some("stdin.txt"),
            stdout_file: Some("stdout.txt"),
            stderr_file: Some("stderr.txt"),
            meta_file: Some(meta_file),
            use_cg: true,
        }
    }

    /// The error when the input cannot be written into the sandbox, given
    /// why.
    pub fn stdin_write_failure(detail: &str) -> (r: crate::errors::AppError)
        ensures
            r matches crate::errors::AppError::Internal(m) && m@ == "Failed to write stdin to sandbox: "@
                + detail@,
    {
        crate::errors::AppError::Internal(joined("Failed to write stdin to sandbox: ", detail))
    }

    /// What is kept of a captured output file (`None` when it could not be
    /// read), cut at `limit` bytes.
    pub fn read_limited(content: Option<Vec<u8>>, limit: usize) -> (r: String)
        ensures
            r@ == kept_output(
                match content {
                    Some(b) => Some(b@),
                    None => None,
                },
                limit,
            ),
    {
        match content {
            None => String::new(),
            Some(b) => {
                if b.len() > limit {
                    let mut head: Vec<u8> = Vec::new();
                    let mut i: usize = 0;
                    while i < limit
                        invariant
                            i <= limit < b@.len(),
                            head@ == b@.subrange(0, i as int),
                        decreases limit - i,
                    {
                        head.push(b[i]);
                        assert(head@ =~= b@.subrange(0, i + 1));
                        i = i + 1;
                    }
                    let text = lossy_text(head.as_slice());
                    joined(text.as_str(), "... [Output Truncated]")
                } else {
                    match utf8_text(b.as_slice()) {
                        Some(t) => t,
                        None => String::new(),
                    }
                }
            },
        }
    }

    /// The outcome of a run. `meta` is the run report, or `None` when
    /// `isolate` wrote none, which makes the run an internal error with no
    /// figures; `time_ms` is the run time the report gives.
    pub fn summarize(
        meta: Option<&MetaReport>,
        time_ms: u64,
        stdout: String,
        stderr: String,
        memory_limit_kb: u64,
    ) -> (r: ExecuteResult)
        ensures
            r.stdout == stdout,
            r.stderr == stderr,
            match meta {
                Some(m) => {
                    &&& r.status == verdict(m.facts(), memory_limit_kb)
                    &&& r.exit_code == m.exit_code
                    &&& r.memory_kb == used_memory(m.facts())
                    &&& r.time_ms == time_ms
                },
                None => {
                    &&& r.status == SubmissionStatus::InternalError
                    &&& r.exit_code == 0
                    &&& r.memory_kb == 0
                    &&& r.time_ms == 0
                },
            },
            meta matches Some(m) ==> r.memory_kb == (match m.facts().cg_mem {
                Some(c) => c,
                None => m.facts().max_rss,
            }),
            meta is Some && meta.unwrap().facts().status == Some("SG"@) && (meta.unwrap().facts().exitsig
                == Some(9i32) || meta.unwrap().facts().exitsig == Some(11i32)) && r.memory_kb + 4096
                >= memory_limit_kb ==> r.status == SubmissionStatus::MemoryLimitExceeded,
            meta is Some && meta.unwrap().facts().status == Some("SG"@) && !((meta.unwrap().facts().exitsig
                == Some(9i32) || meta.unwrap().facts().exitsig == Some(11i32)) && r.memory_kb + 4096
                >= memory_limit_kb) ==> r.status == SubmissionStatus::RuntimeError,
    {
        match meta {
            None => ExecuteResult {
                stdout,
                stderr,
                exit_code: 0,
                status: SubmissionStatus::InternalError,
                time_ms: 0,
                memory_kb: 0,
            },
            Some(m) => {
                let memory_kb = match m.cg_mem {
                    Some(c) => c,
                    None => m.max_rss,
                };
                let status = match &m.status {
                    Some(s) => {
                        proof {
                            reveal_strlit("TO");
                            reveal_strlit("SG");
                            reveal_strlit("RE");
                        }
                        let t = s.as_str();
                        if crate::text::same_text(t, "TO") {
                            SubmissionStatus::TimeLimitExceeded
                        } else if crate::text::same_text(t, "SG") {
                            let floor = if memory_limit_kb >= 4096 {
                                memory_limit_kb - 4096
                            } else {
                                0
                            };
                            let killed = m.exitsig == Some(9i32) || m.exitsig == Some(11i32);
                            if killed && memory_kb >= floor {
                                SubmissionStatus::MemoryLimitExceeded
                            } else {
                                SubmissionStatus::RuntimeError
                            }
                        } else if crate::text::same_text(t, "RE") {
                            SubmissionStatus::RuntimeError
                        } else {
                            SubmissionStatus::InternalError
                        }
                    },
                    None => if m.exit_code != 0 {
                        SubmissionStatus::RuntimeError
                    } else {
                        SubmissionStatus::Accepted
                    },
                };
                proof {
                    law_verdict_cases(m.facts(), memory_limit_kb);
                }
                ExecuteResult {
                    stdout,
                    stderr,
                    exit_code: m.exit_code,
                    status,
                    time_ms,
                    memory_kb,
                }
            },
        }
    }
}

/// A verdict is always a final status.
pub proof fn law_verdict_is_final(f: MetaFacts, memory_limit_kb: u64)
    ensures
        crate::models::is_final(verdict(f, memory_limit_kb)),
{
}

/// A run is judged out of memory only when it was killed by signal 9 or 11
/// and used at least the memory limit less 4096 KB.
pub proof fn law_memory_verdict(f: MetaFacts, memory_limit_kb: u64)
    ensures
        verdict(f, memory_limit_kb) == SubmissionStatus::MemoryLimitExceeded ==> (f.exitsig == Some(
            9i32,
        ) || f.exitsig == Some(11i32)) && used_memory(f) + 4096 >= memory_limit_kb,
{
}

/// How a run is judged from its report, case by case: a timed-out run
/// exceeded the time limit; a run killed by signal 9 or 11 while using at
/// least the memory limit less 4096 KB (the control-group figure, else the
/// peak resident set) ran out of memory, and any other killed run failed at
/// run time; a run-time failure is a run-time error; any other report
/// status is an internal error; with no status, a zero exit code is
/// accepted and any other is a run-time error.
pub proof fn law_verdict_cases(f: MetaFacts, memory_limit_kb: u64)
    ensures
        f.status == Some("TO"@) ==> verdict(f, memory_limit_kb) == SubmissionStatus::TimeLimitExceeded,
        f.status == Some("SG"@) && (f.exitsig == Some(9i32) || f.exitsig == Some(11i32)) && (match f.cg_mem {
            Some(c) => c,
            None => f.max_rss,
        }) + 4096 >= memory_limit_kb ==> verdict(f, memory_limit_kb)
            == SubmissionStatus::MemoryLimitExceeded,
        f.status == Some("SG"@) && !((f.exitsig == Some(9i32) || f.exitsig == Some(11i32)) && (match f.cg_mem {
            Some(c) => c,
            None => f.max_rss,
        }) + 4096 >= memory_limit_kb) ==> verdict(f, memory_limit_kb) == SubmissionStatus::RuntimeError,
        f.status == Some("RE"@) ==> verdict(f, memory_limit_kb) == SubmissionStatus::RuntimeError,
        (f.status matches Some(t) && t != "TO"@ && t != "SG"@ && t != "RE"@) ==> verdict(f, memory_limit_kb)
            == SubmissionStatus::InternalError,
        f.status is None && f.exit_code == 0 ==> verdict(f, memory_limit_kb) == SubmissionStatus::Accepted,
        f.status is None && f.exit_code != 0 ==> verdict(f, memory_limit_kb)
            == SubmissionStatus::RuntimeError,
{
    reveal_strlit("TO");
    reveal_strlit("SG");
    reveal_strlit("RE");
    assert("SG"@ != "TO"@) by {
        assert("SG"@[0] != "TO"@[0]);
    }
    assert("RE"@ != "TO"@) by {
        assert("RE"@[0] != "TO"@[0]);
    }
    assert("RE"@ != "SG"@) by {
        assert("RE"@[0] != "SG"@[0]);
    }
    let used = used_memory(f);
    assert(used == (match f.cg_mem {
        Some(c) => c,
        None => f.max_rss,
    }));
    assert(used >= sat_sub(memory_limit_kb, 4096) <==> used + 4096 >= memory_limit_kb);
}

/// What is kept of an output file: nothing when it could not be read; its
/// text when it fits the limit and is UTF-8, nothing when it fits and is
/// not; and when it is longer than the limit, its first `limit` bytes,
/// decoded leniently, followed by the truncation marker.
pub proof fn law_kept_output_cases(content: Option<Seq<u8>>, limit: usize)
    ensures
        content is None ==> kept_output(content, limit).len() == 0,
        (content matches Some(b) && b.len() <= limit && valid_utf8(b)) ==> kept_output(content, limit)
            == decode_utf8(content->0),
        (content matches Some(b) && b.len() <= limit && !valid_utf8(b)) ==> kept_output(content, limit).len()
            == 0,
        (content matches Some(b) && b.len() > limit) ==> kept_output(content, limit) == lossy_utf8(
            content->0.subrange(0, limit as int),
        ) + "... [Output Truncated]"@,
{
}

/// The first `:` of a line `key:value` whose key holds none is the one
/// after the key.
proof fn lemma_colon_after_key(k: Seq<char>, v: Seq<char>)
    requires
        forall|i: int| 0 <= i < k.len() ==> k[i] != ':',
    ensures
        colon_at(k + ":"@ + v) == k.len(),
        (k + ":"@ + v).subrange(0, k.len() as int) == k,
        (k + ":"@ + v).subrange(k.len() as int + 1, (k + ":"@ + v).len() as int) == v,
    decreases k.len(),
{
    reveal_strlit(":");
    let l = k + ":"@ + v;
    assert(l.subrange(0, k.len() as int) =~= k);
    assert(l.subrange(k.len() as int + 1, l.len() as int) =~= v);
    if k.len() == 0 {
        assert(l[0] == ':');
    } else {
        lemma_colon_after_key(k.drop_first(), v);
        assert(l.drop_first() =~= k.drop_first() + ":"@ + v);
        assert(l[0] == k[0]);
    }
}

/// What the report lines that the verdict reads record: `status:` sets the
/// status to the text after the colon; `exitsig:`, `exitcode:`, `cg-mem:`
/// and `max-rss:` set their figure when the text after the colon is a
/// number, and leave the report as it was otherwise.
pub proof fn law_meta_lines(f: MetaFacts, v: Seq<char>)
    ensures
        apply_line(f, "status"@ + ":"@ + v) == (MetaFacts { status: Some(v), ..f }),
        apply_line(f, "exitsig"@ + ":"@ + v) == (match parse_i32_spec(v) {
            Some(n) => MetaFacts { exitsig: Some(n as i32), ..f },
            None => f,
        }),
        apply_line(f, "exitcode"@ + ":"@ + v) == (match parse_i32_spec(v) {
            Some(n) => MetaFacts { exit_code: n as i32, ..f },
            None => f,
        }),
        apply_line(f, "cg-mem"@ + ":"@ + v) == (match parse_unsigned(v, u64::MAX as int) {
            Some(n) => MetaFacts { cg_mem: Some(n as u64), ..f },
            None => f,
        }),
        apply_line(f, "max-rss"@ + ":"@ + v) == (match parse_unsigned(v, u64::MAX as int) {
            Some(n) => MetaFacts { max_rss: n as u64, ..f },
            None => f,
        }),
{
    reveal_strlit("status");
    reveal_strlit("exitsig");
    reveal_strlit("exitcode");
    reveal_strlit("cg-mem");
    reveal_strlit("max-rss");
    reveal_strlit("time");
    reveal_strlit(":");
    lemma_colon_after_key("status"@, v);
    lemma_colon_after_key("exitsig"@, v);
    lemma_colon_after_key("exitcode"@, v);
    lemma_colon_after_key("cg-mem"@, v);
    lemma_colon_after_key("max-rss"@, v);
    assert("status"@ != "cg-mem"@) by {
        assert("status"@[0] != "cg-mem"@[0]);
    }
    assert("exitsig"@ != "max-rss"@) by {
        assert("exitsig"@[0] != "max-rss"@[0]);
    }
    let l = "status"@ + ":"@ + v;
    assert(l.subrange(0, 6) != "cg-mem"@);
    assert(apply_line(f, l) == (MetaFacts { status: Some(v), ..f }));
}

} // verus!
