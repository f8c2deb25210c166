//! Character-level text handling shared by the whole library: whitespace,
//! trimming, prefix tests, decimal rendering and decimal parsing.

use vstd::prelude::*;
use vstd::utf8::{decode_utf8, valid_utf8};

verus! {

// ---------------------------------------------------------------------------
// Whitespace
// ---------------------------------------------------------------------------

/// The Unicode `White_Space` property, the set `char::is_whitespace` tests.
pub open spec fn is_ws(c: char) -> bool {
    let v = c as u32;
    ||| (0x9 <= v && v <= 0xD)
    ||| v == 0x20
    ||| v == 0x85
    ||| v == 0xA0
    ||| v == 0x1680
    ||| (0x2000 <= v && v <= 0x200A)
    ||| v == 0x2028
    ||| v == 0x2029
    ||| v == 0x202F
    ||| v == 0x205F
    ||| v == 0x3000
}

/// Whether `c` is Unicode whitespace.
pub fn is_whitespace(c: char) -> (b: bool)
    ensures
        b == is_ws(c),
{
    let v = c as u32;
    (0x9 <= v && v <= 0xD) || v == 0x20 || v == 0x85 || v == 0xA0 || v == 0x1680 || (0x2000
        <= v && v <= 0x200A) || v == 0x2028 || v == 0x2029 || v == 0x202F || v == 0x205F || v
        == 0x3000
}

/// A text that `str::trim` turns into the empty text: whitespace only.
pub open spec fn is_blank(s: Seq<char>) -> bool {
    forall|i: int| 0 <= i < s.len() ==> is_ws(#[trigger] s[i])
}

/// The text with its leading whitespace removed.
pub open spec fn trim_start(s: Seq<char>) -> Seq<char>
    decreases s.len(),
{
    if s.len() > 0 && is_ws(s[0]) {
        trim_start(s.drop_first())
    } else {
        s
    }
}

/// The text with its trailing whitespace removed.
pub open spec fn trim_end(s: Seq<char>) -> Seq<char>
    decreases s.len(),
{
    if s.len() > 0 && is_ws(s.last()) {
        trim_end(s.drop_last())
    } else {
        s
    }
}

/// `str::trim`: leading and trailing whitespace removed.
pub open spec fn trimmed(s: Seq<char>) -> Seq<char> {
    trim_end(trim_start(s))
}

/// Whether `p` is a prefix of `s`.
pub open spec fn has_prefix(s: Seq<char>, p: Seq<char>) -> bool {
    p.len() <= s.len() && s.subrange(0, p.len() as int) == p
}

// ---------------------------------------------------------------------------
// Decimal numerals
// ---------------------------------------------------------------------------

/// The character of a decimal digit.
pub open spec fn digit_char(d: int) -> char {
    (48 + d) as char
}

/// Whether `c` is an ASCII decimal digit.
pub open spec fn is_digit(c: char) -> bool {
    '0' <= c && c <= '9'
}

/// The value of an ASCII decimal digit.
pub open spec fn digit_value(c: char) -> int {
    c as int - 48
}

/// The decimal numeral of `n`, without sign or leading zeros.
pub open spec fn decimal(n: nat) -> Seq<char>
    decreases n,
{
    if n < 10 {
        seq![digit_char(n as int)]
    } else {
        decimal(n / 10).push(digit_char((n % 10) as int))
    }
}

/// The decimal numeral of a signed integer: a minus sign before the digits of
/// a negative number.
pub open spec fn signed_decimal(v: int) -> Seq<char> {
    if v < 0 {
        seq!['-'] + decimal((-v) as nat)
    } else {
        decimal(v as nat)
    }
}

/// Whether every character of `s` is a decimal digit.
pub open spec fn all_digits(s: Seq<char>) -> bool {
    forall|i: int| 0 <= i < s.len() ==> is_digit(#[trigger] s[i])
}

/// The value of a run of decimal digits.
pub open spec fn digits_value(s: Seq<char>) -> int
    decreases s.len(),
{
    if s.len() == 0 {
        0
    } else {
        digits_value(s.drop_last()) * 10 + digit_value(s.last())
    }
}

/// What integer `FromStr` reads from a text without sign rules: one or more
/// digits and nothing else.
pub open spec fn digits_number(s: Seq<char>) -> Option<int> {
    if s.len() > 0 && all_digits(s) {
        Some(digits_value(s))
    } else {
        None
    }
}

/// The number an unsigned integer type parses from `s`, before the range
/// check: an optional `+`, then one or more digits.
pub open spec fn unsigned_number(s: Seq<char>) -> Option<int> {
    if s.len() > 0 && s[0] == '+' {
        digits_number(s.drop_first())
    } else {
        digits_number(s)
    }
}

/// The number a signed integer type parses from `s`, before the range
/// check: an optional `+` or `-`, then one or more digits.
pub open spec fn signed_number(s: Seq<char>) -> Option<int> {
    if s.len() > 0 && s[0] == '-' {
        match digits_number(s.drop_first()) {
            Some(v) => Some(-v),
            None => None,
        }
    } else {
        unsigned_number(s)
    }
}

/// `str::parse` for an unsigned type whose largest value is `max`.
pub open spec fn parse_unsigned(s: Seq<char>, max: int) -> Option<int> {
    match unsigned_number(s) {
        Some(v) => if v <= max {
            Some(v)
        } else {
            None
        },
        None => None,
    }
}

/// `str::parse::<i32>`.
pub open spec fn parse_i32_spec(s: Seq<char>) -> Option<int> {
    match signed_number(s) {
        Some(v) => if i32::MIN <= v && v <= i32::MAX {
            Some(v)
        } else {
            None
        },
        None => None,
    }
}

// ---------------------------------------------------------------------------
// Lemmas
// ---------------------------------------------------------------------------

proof fn lemma_digits_value_nonneg(s: Seq<char>)
    requires
        all_digits(s),
    ensures
        digits_value(s) >= 0,
    decreases s.len(),
{
    if s.len() > 0 {
        assert(all_digits(s.drop_last()));
        lemma_digits_value_nonneg(s.drop_last());
        assert(is_digit(s[s.len() - 1]));
    }
}

/// A parsed unsigned number lies between zero and the type's largest value.
pub proof fn lemma_parse_unsigned_range(s: Seq<char>, max: int)
    ensures
        parse_unsigned(s, max) matches Some(x) ==> 0 <= x <= max,
{
    if unsigned_number(s) is Some {
        if s.len() > 0 && s[0] == '+' {
            lemma_digits_value_nonneg(s.drop_first());
        } else {
            lemma_digits_value_nonneg(s);
        }
    }
}

/// A longer run of digits is worth at least as much as its prefix.
proof fn lemma_digits_value_prefix(s: Seq<char>, k: int)
    requires
        all_digits(s),
        0 <= k <= s.len(),
    ensures
        digits_value(s.subrange(0, k)) <= digits_value(s),
    decreases s.len(),
{
    if k < s.len() {
        let t = s.drop_last();
        assert(all_digits(t));
        lemma_digits_value_prefix(t, k);
        assert(t.subrange(0, k) =~= s.subrange(0, k));
        lemma_digits_value_nonneg(t);
        assert(is_digit(s[s.len() - 1]));
    } else {
        assert(s.subrange(0, k) =~= s);
    }
}

proof fn lemma_digits_value_step(s: Seq<char>, i: int)
    requires
        0 <= i < s.len(),
    ensures
        digits_value(s.subrange(0, i + 1)) == digits_value(s.subrange(0, i)) * 10 + digit_value(
            s[i],
        ),
{
    let t = s.subrange(0, i + 1);
    assert(t.drop_last() =~= s.subrange(0, i));
}

proof fn lemma_decimal_len(n: nat)
    ensures
        decimal(n).len() >= 1,
        n < 10 ==> decimal(n).len() == 1,
    decreases n,
{
    if n >= 10 {
        lemma_decimal_len(n / 10);
    }
}

/// Reading back a rendered number gives the number: `decimal` and
/// `str::parse` agree.
pub proof fn law_parse_reads_decimal(n: nat, max: int)
    requires
        n <= max,
    ensures
        parse_unsigned(decimal(n), max) == Some(n as int),
    decreases n,
{
    lemma_decimal_digits(n);
    lemma_decimal_len(n);
    if decimal(n)[0] == '+' {
        assert(is_digit(decimal(n)[0]));
    }
}

proof fn lemma_decimal_digits(n: nat)
    ensures
        all_digits(decimal(n)),
        digits_value(decimal(n)) == n,
    decreases n,
{
    let k = (n % 10) as int;
    assert(digit_char(k) as int == 48 + k);
    assert(digit_value(digit_char(k)) == k);
    if n < 10 {
        let d = decimal(n);
        assert(d.drop_last() =~= Seq::<char>::empty());
        assert(d.last() == digit_char(k));
        assert(digits_value(d) == digits_value(d.drop_last()) * 10 + digit_value(d.last()));
    } else {
        lemma_decimal_digits(n / 10);
        let d = decimal(n);
        assert(d.last() == digit_char(k));
        assert((n / 10) * 10 + n % 10 == n) by (nonlinear_arith);
        assert(digits_value(d) == digits_value(d.drop_last()) * 10 + digit_value(d.last()));
        assert(d.drop_last() =~= decimal(n / 10));
        assert(all_digits(d)) by {
            assert forall|i: int| 0 <= i < d.len() implies is_digit(#[trigger] d[i]) by {
                if i < d.len() - 1 {
                    assert(d[i] == decimal(n / 10)[i]);
                }
            }
        }
    }
}

// ---------------------------------------------------------------------------
// Executable helpers
// ---------------------------------------------------------------------------

/// Appends one character to a `String` (`String::push`).
#[verifier::external_body]
pub(crate) fn push_char(s: &mut String, c: char)
    ensures
        final(s)@ == old(s)@.push(c),
{
    s.push(c);
}

/// The characters of a text, as a vector.
pub fn chars_of(s: &str) -> (v: Vec<char>)
    ensures
        v@ == s@,
{
    let mut v: Vec<char> = Vec::new();
    for c in it: s.chars()
        invariant
            it.seq() == s@,
            v@ == it.seq().take(it.index() as int),
    {
        v.push(c);
    }
    assert(v@ =~= s@);
    v
}

/// The text made of the characters `v[lo..hi]`.
pub fn text_of_range(v: &Vec<char>, lo: usize, hi: usize) -> (r: String)
    requires
        lo <= hi <= v@.len(),
    ensures
        r@ == v@.subrange(lo as int, hi as int),
{
    let mut r = String::new();
    let mut i = lo;
    while i < hi
        invariant
            lo <= i <= hi <= v@.len(),
            r@ == v@.subrange(lo as int, i as int),
        decreases hi - i,
    {
        push_char(&mut r, v[i]);
        assert(r@ =~= v@.subrange(lo as int, i + 1));
        i = i + 1;
    }
    r
}

/// The concatenation of two texts.
pub fn joined(a: &str, b: &str) -> (r: String)
    ensures
        r@ == a@ + b@,
{
    let mut r = a.to_string();
    r.append(b);
    r
}

/// The concatenation of three texts.
pub fn joined3(a: &str, b: &str, c: &str) -> (r: String)
    ensures
        r@ == a@ + b@ + c@,
{
    let mut r = a.to_string();
    r.append(b);
    r.append(c);
    r
}

/// Whether two texts hold the same characters.
pub fn same_text(a: &str, b: &str) -> (r: bool)
    ensures
        r == (a@ == b@),
{
    let x = a.to_string();
    let y = b.to_string();
    x == y
}

/// Whether the text is made of whitespace only (`s.trim().is_empty()`).
pub fn is_blank_text(s: &str) -> (b: bool)
    ensures
        b == is_blank(s@),
{
    let mut all = true;
    for c in it: s.chars()
        invariant
            it.seq() == s@,
            all == (forall|j: int| 0 <= j < it.index() ==> is_ws(#[trigger] s@[j])),
    {
        if !is_whitespace(c) {
            all = false;
        }
    }
    all
}

proof fn lemma_trim_start_skip(s: Seq<char>, k: int)
    requires
        0 <= k <= s.len(),
        forall|j: int| 0 <= j < k ==> is_ws(#[trigger] s[j]),
    ensures
        trim_start(s) == trim_start(s.subrange(k, s.len() as int)),
    decreases k,
{
    if k > 0 {
        assert(is_ws(s[0]));
        let t = s.drop_first();
        assert forall|j: int| 0 <= j < k - 1 implies is_ws(#[trigger] t[j]) by {
            assert(t[j] == s[j + 1]);
        }
        lemma_trim_start_skip(t, k - 1);
        assert(t.subrange(k - 1, t.len() as int) =~= s.subrange(k, s.len() as int));
    } else {
        assert(s.subrange(0, s.len() as int) =~= s);
    }
}

proof fn lemma_trim_end_cut(s: Seq<char>, k: int)
    requires
        0 <= k <= s.len(),
        forall|j: int| k <= j < s.len() ==> is_ws(#[trigger] s[j]),
    ensures
        trim_end(s) == trim_end(s.subrange(0, k)),
    decreases s.len() - k,
{
    if k < s.len() {
        assert(is_ws(s[s.len() - 1]));
        let t = s.drop_last();
        assert forall|j: int| k <= j < t.len() implies is_ws(#[trigger] t[j]) by {
            assert(t[j] == s[j]);
        }
        lemma_trim_end_cut(t, k);
        assert(t.subrange(0, k) =~= s.subrange(0, k));
    } else {
        assert(s.subrange(0, k) =~= s);
    }
}

/// `s.trim()`, as a new `String`.
pub fn trim_text(s: &str) -> (r: String)
    ensures
        r@ == trimmed(s@),
{
    let v = chars_of(s);
    let n = v.len();
    let mut lo: usize = 0;
    while lo < n && is_whitespace(v[lo])
        invariant
            n == v@.len(),
            lo <= n,
            forall|j: int| 0 <= j < lo ==> is_ws(#[trigger] v@[j]),
        decreases n - lo,
    {
        lo = lo + 1;
    }
    proof {
        lemma_trim_start_skip(v@, lo as int);
    }
    let ghost rest = v@.subrange(lo as int, n as int);
    if lo == n {
        assert(rest.len() == 0);
        assert(trim_end(rest) == rest);
        return String::new();
    }
    assert(!is_ws(rest[0]));
    assert(trim_start(rest) == rest);
    let mut hi: usize = n;
    while hi > lo && is_whitespace(v[hi - 1])
        invariant
            n == v@.len(),
            lo < n,
            lo <= hi <= n,
            forall|j: int| hi <= j < n ==> is_ws(#[trigger] v@[j]),
        decreases hi,
    {
        hi = hi - 1;
    }
    assert(hi > lo) by {
        if hi == lo {
            assert(is_ws(v@[lo as int]));
        }
    }
    proof {
        let k = hi - lo;
        assert forall|j: int| k <= j < rest.len() implies is_ws(#[trigger] rest[j]) by {
            assert(rest[j] == v@[j + lo]);
        }
        lemma_trim_end_cut(rest, k as int);
        let cut = rest.subrange(0, k as int);
        assert(cut =~= v@.subrange(lo as int, hi as int));
        assert(!is_ws(cut.last()));
        assert(trim_end(cut) == cut);
    }
    text_of_range(&v, lo, hi)
}

/// Whether `s` begins with `prefix` (`str::starts_with` for a text pattern).
pub fn starts_with_text(s: &str, prefix: &str) -> (b: bool)
    ensures
        b == has_prefix(s@, prefix@),
{
    let a = chars_of(s);
    let p = chars_of(prefix);
    if p.len() > a.len() {
        return false;
    }
    let mut i: usize = 0;
    while i < p.len()
        invariant
            p@.len() <= a@.len(),
            i <= p@.len(),
            a@ == s@,
            p@ == prefix@,
            forall|j: int| 0 <= j < i ==> a@[j] == p@[j],
        decreases p.len() - i,
    {
        if a[i] != p[i] {
            assert(a@.subrange(0, p@.len() as int)[i as int] != p@[i as int]);
            return false;
        }
        i = i + 1;
    }
    assert(a@.subrange(0, p@.len() as int) =~= p@);
    true
}

/// The decimal numeral of `n`.
pub fn u64_text(n: u64) -> (r: String)
    ensures
        r@ == decimal(n as nat),
    decreases n,
{
    let d = n % 10;
    let c = (48u8 + d as u8) as char;
    assert(c == digit_char(d as int));
    if n < 10 {
        let mut r = String::new();
        push_char(&mut r, c);
        assert(r@ =~= decimal(n as nat));
        r
    } else {
        let mut r = u64_text(n / 10);
        push_char(&mut r, c);
        r
    }
}

/// The decimal numeral of a signed number, with a leading `-` when it is
/// negative.
pub fn i64_text(v: i64) -> (r: String)
    ensures
        r@ == signed_decimal(v as int),
{
    if v < 0 {
        let magnitude: u64 = if v == i64::MIN {
            9223372036854775808u64
        } else {
            (-v) as u64
        };
        let digits = u64_text(magnitude);
        let r = joined("-", digits.as_str());
        proof {
            reveal_strlit("-");
        }
        assert(r@ =~= seq!['-'] + decimal((-v) as nat));
        r
    } else {
        u64_text(v as u64)
    }
}

/// Reads the digits `v[lo..hi]`: `Some` of their value when the range is one
/// or more digits worth at most `bound`, else `None`.
fn digits_within(v: &Vec<char>, lo: usize, hi: usize, bound: u64) -> (r: Option<u64>)
    requires
        lo <= hi <= v@.len(),
    ensures
        r == (match digits_number(v@.subrange(lo as int, hi as int)) {
            Some(x) => if x <= bound {
                Some(x as u64)
            } else {
                None::<u64>
            },
            None => None::<u64>,
        }),
{
    let ghost s = v@.subrange(lo as int, hi as int);
    if lo == hi {
        return None;
    }
    let mut acc: u64 = 0;
    let mut i = lo;
    while i < hi
        invariant
            lo <= i <= hi <= v@.len(),
            s == v@.subrange(lo as int, hi as int),
            all_digits(s.subrange(0, i - lo)),
            acc == digits_value(s.subrange(0, i - lo)),
            acc <= bound,
        decreases hi - i,
    {
        let c = v[i];
        if !('0' <= c && c <= '9') {
            assert(!all_digits(s)) by {
                assert(s[i - lo] == c);
            }
            return None;
        }
        let d = (c as u32 - 48) as u64;
        proof {
            lemma_digits_value_step(s, i - lo);
            assert(s[i - lo] == c);
            assert(all_digits(s.subrange(0, i - lo + 1))) by {
                assert forall|j: int| 0 <= j < i - lo + 1 implies is_digit(
                    #[trigger] s.subrange(0, i - lo + 1)[j],
                ) by {
                    if j < i - lo {
                        assert(s.subrange(0, i - lo)[j] == s[j]);
                    }
                }
            }
        }
        if d > bound || acc > (bound - d) / 10 {
            // acc * 10 + d exceeds the bound; so does the whole numeral, or
            // it is not a numeral at all.
            proof {
                if d <= bound {
                    assert(acc * 10 + d > bound) by (nonlinear_arith)
                        requires
                            acc > (bound - d) / 10,
                            d <= bound,
                    ;
                }
                if all_digits(s) {
                    lemma_digits_value_prefix(s, i - lo + 1);
                }
            }
            return None;
        }
        assert(acc * 10 + d <= bound) by (nonlinear_arith)
            requires
                acc <= (bound - d) / 10,
                d <= bound,
        ;
        acc = acc * 10 + d;
        i = i + 1;
    }
    assert(s.subrange(0, hi - lo) =~= s);
    Some(acc)
}

/// `str::parse` of an unsigned integer no larger than `max`, over
/// `v[lo..hi]`.
pub fn parse_unsigned_range(v: &Vec<char>, lo: usize, hi: usize, max: u64) -> (r: Option<u64>)
    requires
        lo <= hi <= v@.len(),
    ensures
        r == (match parse_unsigned(v@.subrange(lo as int, hi as int), max as int) {
            Some(x) => Some(x as u64),
            None => None::<u64>,
        }),
{
    let ghost s = v@.subrange(lo as int, hi as int);
    if lo < hi && v[lo] == '+' {
        assert(s.drop_first() =~= v@.subrange(lo + 1, hi as int));
        digits_within(v, lo + 1, hi, max)
    } else {
        digits_within(v, lo, hi, max)
    }
}

/// `str::parse::<i32>` over `v[lo..hi]`.
pub fn parse_i32_range(v: &Vec<char>, lo: usize, hi: usize) -> (r: Option<i32>)
    requires
        lo <= hi <= v@.len(),
    ensures
        r == (match parse_i32_spec(v@.subrange(lo as int, hi as int)) {
            Some(x) => Some(x as i32),
            None => None::<i32>,
        }),
{
    let ghost s = v@.subrange(lo as int, hi as int);
    if lo < hi && v[lo] == '-' {
        assert(s.drop_first() =~= v@.subrange(lo + 1, hi as int));
        match digits_within(v, lo + 1, hi, 2147483648) {
            Some(m) => {
                proof {
                    lemma_digits_value_nonneg(s.drop_first());
                }
                if m == 2147483648 {
                    Some(-2147483648i32)
                } else {
                    Some(-(m as i32))
                }
            },
            None => {
                proof {
                    if digits_number(s.drop_first()) is Some {
                        lemma_digits_value_nonneg(s.drop_first());
                    }
                }
                None
            },
        }
    } else {
        let r = parse_unsigned_range(v, lo, hi, 2147483647);
        proof {
            if unsigned_number(s) is Some {
                if s.len() > 0 && s[0] == '+' {
                    lemma_digits_value_nonneg(s.drop_first());
                } else {
                    lemma_digits_value_nonneg(s);
                }
            }
        }
        match r {
            Some(x) => Some(x as i32),
            None => None,
        }
    }
}

/// `str::parse` of an unsigned integer no larger than `max`.
pub fn parse_unsigned_text(s: &str, max: u64) -> (r: Option<u64>)
    ensures
        r == (match parse_unsigned(s@, max as int) {
            Some(x) => Some(x as u64),
            None => None::<u64>,
        }),
{
    let v = chars_of(s);
    assert(v@.subrange(0, v@.len() as int) =~= s@);
    parse_unsigned_range(&v, 0, v.len(), max)
}

// ---------------------------------------------------------------------------
// Bytes to text
// ---------------------------------------------------------------------------

/// What `String::from_utf8_lossy` makes of a byte sequence.
pub uninterp spec fn lossy_utf8(bytes: Seq<u8>) -> Seq<char>;

/// Decodes UTF-8 strictly (`str::from_utf8`): `Some` of the text exactly when
/// the bytes are valid UTF-8.
#[verifier::external_body]
pub(crate) fn utf8_text(bytes: &[u8]) -> (r: Option<String>)
    ensures
        r is Some <==> valid_utf8(bytes@),
        r matches Some(t) ==> t@ == decode_utf8(bytes@),
{
    match std::str::from_utf8(bytes) {
        Ok(t) => Some(t.to_string()),
        Err(_) => None,
    }
}

/// Decodes UTF-8 leniently (`String::from_utf8_lossy`): each invalid
/// sequence becomes U+FFFD. Valid input decodes as it would strictly.
#[verifier::external_body]
pub(crate) fn lossy_text(bytes: &[u8]) -> (r: String)
    ensures
        r@ == lossy_utf8(bytes@),
        valid_utf8(bytes@) ==> r@ == decode_utf8(bytes@),
{
    String::from_utf8_lossy(bytes).into_owned()
}

} // verus!
