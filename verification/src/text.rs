//! Small verified text utilities: decimal rendering of integers and the
//! ASCII-level string predicates the shell-resolution logic relies on.

use vstd::prelude::*;
use vstd::string::StrSliceExecFns;
use vstd::string::StringExecFns;

verus! {

/// The character for one decimal digit.
pub open spec fn spec_digit_char(d: int) -> char {
    if d == 0 {
        '0'
    } else if d == 1 {
        '1'
    } else if d == 2 {
        '2'
    } else if d == 3 {
        '3'
    } else if d == 4 {
        '4'
    } else if d == 5 {
        '5'
    } else if d == 6 {
        '6'
    } else if d == 7 {
        '7'
    } else if d == 8 {
        '8'
    } else {
        '9'
    }
}

/// Decimal rendering of a non-negative integer, most significant digit first.
pub open spec fn spec_u64_dec(n: int) -> Seq<char>
    decreases n,
{
    if n < 10 {
        seq![spec_digit_char(n)]
    } else {
        spec_u64_dec(n / 10).push(spec_digit_char(n % 10))
    }
}

/// Decimal rendering of a signed integer: a leading minus sign when negative.
pub open spec fn spec_i64_dec(n: int) -> Seq<char> {
    if n < 0 {
        seq!['-'] + spec_u64_dec(-n)
    } else {
        spec_u64_dec(n)
    }
}

pub(crate) fn digit_str(d: u64) -> (r: &'static str)
    requires
        d <= 9,
    ensures
        r@ == seq![spec_digit_char(d as int)],
{
    proof {
        reveal_strlit("0");
        reveal_strlit("1");
        reveal_strlit("2");
        reveal_strlit("3");
        reveal_strlit("4");
        reveal_strlit("5");
        reveal_strlit("6");
        reveal_strlit("7");
        reveal_strlit("8");
        reveal_strlit("9");
    }
    let r: &'static str = if d == 0 {
        "0"
    } else if d == 1 {
        "1"
    } else if d == 2 {
        "2"
    } else if d == 3 {
        "3"
    } else if d == 4 {
        "4"
    } else if d == 5 {
        "5"
    } else if d == 6 {
        "6"
    } else if d == 7 {
        "7"
    } else if d == 8 {
        "8"
    } else {
        "9"
    };
    proof {
        assert(r@ =~= seq![spec_digit_char(d as int)]);
    }
    r
}

/// Renders `n` in decimal.
pub fn u64_to_string(n: u64) -> (r: String)
    ensures
        r@ == spec_u64_dec(n as int),
    decreases n,
{
    if n < 10 {
        let d = digit_str(n);
        let r = String::from_str(d);
        r
    } else {
        let mut s = u64_to_string(n / 10);
        s.append(digit_str(n % 10));
        proof {
            assert(s@ =~= spec_u64_dec(n as int));
        }
        s
    }
}

/// Renders `n` in decimal with a minus sign when negative.
pub fn i64_to_string(n: i64) -> (r: String)
    ensures
        r@ == spec_i64_dec(n as int),
{
    proof {
        reveal_strlit("-");
    }
    if n < 0 {
        let mut s = String::from_str("-");
        let magnitude: u64 = if n == i64::MIN {
            9223372036854775808u64
        } else {
            (-n) as u64
        };
        s.append(u64_to_string(magnitude).as_str());
        proof {
            assert(s@ =~= spec_i64_dec(n as int));
        }
        s
    } else {
        u64_to_string(n as u64)
    }
}

/// The lowercase form of an ASCII uppercase letter; other characters are
/// left unchanged.
pub open spec fn spec_lower_char(c: char) -> char {
    if 'A' <= c && c <= 'Z' {
        (((c as u32) + 32) as u8) as char
    } else {
        c
    }
}

/// Character-wise ASCII lowercasing.
pub open spec fn spec_ascii_lower(s: Seq<char>) -> Seq<char> {
    s.map_values(|c: char| spec_lower_char(c))
}

/// Relies on std's String::push: appends exactly the one character.
#[verifier::external_body]
pub(crate) fn push_char(s: &mut String, c: char)
    ensures
        final(s)@ == old(s)@.push(c),
{
    s.push(c);
}

/// Lowercases the ASCII letters of `s`, leaving every other character alone.
pub fn ascii_lowercase(s: &str) -> (r: String)
    ensures
        r@ == spec_ascii_lower(s@),
{
    let n: usize = s.unicode_len();
    let mut r = String::new();
    let mut i: usize = 0;
    while i < n
        invariant
            n == s@.len(),
            i <= n,
            r@ =~= spec_ascii_lower(s@.subrange(0, i as int)),
        decreases n - i,
    {
        let c: char = s.get_char(i);
        let lc: char = if 'A' <= c && c <= 'Z' {
            ((((c as u32) + 32) as u8) as char)
        } else {
            c
        };
        push_char(&mut r, lc);
        i = i + 1;
        proof {
            assert(spec_ascii_lower(s@.subrange(0, i as int)) =~= spec_ascii_lower(
                s@.subrange(0, i - 1),
            ).push(spec_lower_char(s@[i - 1])));
        }
    }
    proof {
        assert(s@.subrange(0, n as int) =~= s@);
    }
    r
}

/// Compares two string slices character by character.
pub fn str_eq(a: &str, b: &str) -> (r: bool)
    ensures
        r == (a@ == b@),
{
    let an: usize = a.unicode_len();
    let bn: usize = b.unicode_len();
    if an != bn {
        proof {
            assert(a@ != b@);
        }
        return false;
    }
    let mut i: usize = 0;
    while i < an
        invariant
            an == a@.len(),
            an == b@.len(),
            i <= an,
            forall|j: int| 0 <= j < i ==> a@[j] == b@[j],
        decreases an - i,
    {
        if a.get_char(i) != b.get_char(i) {
            return false;
        }
        i = i + 1;
    }
    proof {
        assert(a@ =~= b@);
    }
    true
}

/// Whether `needle` occurs contiguously inside `hay`.
pub open spec fn spec_contains(hay: Seq<char>, needle: Seq<char>) -> bool {
    exists|i: int|
        0 <= i && i + needle.len() <= hay.len() && #[trigger] hay.subrange(i, i + needle.len())
            == needle
}

fn matches_at(hay: &str, needle: &str, at: usize) -> (r: bool)
    requires
        at + needle@.len() <= hay@.len(),
    ensures
        r == (hay@.subrange(at as int, at + needle@.len()) == needle@),
{
    let n: usize = needle.unicode_len();
    let hn: usize = hay.unicode_len();
    let mut j: usize = 0;
    while j < n
        invariant
            n == needle@.len(),
            hn == hay@.len(),
            at + n <= hay@.len(),
            j <= n,
            forall|k: int| 0 <= k < j ==> hay@[at + k] == needle@[k],
        decreases n - j,
    {
        if hay.get_char(at + j) != needle.get_char(j) {
            proof {
                assert(hay@.subrange(at as int, at + needle@.len())[j as int] != needle@[j as int]);
            }
            return false;
        }
        j = j + 1;
    }
    proof {
        assert(hay@.subrange(at as int, at + needle@.len()) =~= needle@);
    }
    true
}

/// Whether `needle` occurs contiguously inside `hay`.
pub fn str_contains(hay: &str, needle: &str) -> (r: bool)
    ensures
        r == spec_contains(hay@, needle@),
{
    let hn: usize = hay.unicode_len();
    let nn: usize = needle.unicode_len();
    if nn > hn {
        proof {
            assert(!spec_contains(hay@, needle@));
        }
        return false;
    }
    if nn == 0 {
        proof {
            assert(hay@.subrange(0, 0 + needle@.len() as int) =~= needle@);
        }
        return true;
    }
    let mut i: usize = 0;
    while i <= hn - nn
        invariant
            hn == hay@.len(),
            nn == needle@.len(),
            1 <= nn <= hn,
            i <= hn - nn + 1,
            forall|k: int|
                0 <= k < i ==> #[trigger] hay@.subrange(k, k + needle@.len()) != needle@,
        decreases hn - nn + 1 - i,
    {
        if matches_at(hay, needle, i) {
            return true;
        }
        i = i + 1;
    }
    proof {
        assert(!spec_contains(hay@, needle@));
    }
    false
}

/// The index just past the last separator character (`/` or `\`) of `s`,
/// or zero when `s` holds none.
pub open spec fn spec_after_last_sep(s: Seq<char>) -> int
    decreases s.len(),
{
    if s.len() == 0 {
        0
    } else if s[s.len() - 1] == '/' || s[s.len() - 1] == '\\' {
        s.len() as int
    } else {
        spec_after_last_sep(s.subrange(0, s.len() - 1))
    }
}

/// The trailing path component of `s`: everything after the last `/` or `\`.
pub open spec fn spec_base_name(s: Seq<char>) -> Seq<char> {
    s.subrange(spec_after_last_sep(s), s.len() as int)
}

proof fn lemma_after_last_sep_bounds(s: Seq<char>)
    ensures
        0 <= spec_after_last_sep(s) <= s.len(),
    decreases s.len(),
{
    if s.len() != 0 && !(s[s.len() - 1] == '/' || s[s.len() - 1] == '\\') {
        lemma_after_last_sep_bounds(s.subrange(0, s.len() - 1));
    }
}

/// Returns the trailing path component of `s` (the part after the last
/// `/` or `\`), or `s` itself when it holds no separator.
pub fn base_name(s: &str) -> (r: String)
    ensures
        r@ == spec_base_name(s@),
{
    let n: usize = s.unicode_len();
    let mut cut: usize = 0;
    let mut i: usize = 0;
    proof {
        assert(s@.subrange(0, 0) =~= Seq::<char>::empty());
    }
    while i < n
        invariant
            n == s@.len(),
            i <= n,
            cut <= i,
            cut == spec_after_last_sep(s@.subrange(0, i as int)),
        decreases n - i,
    {
        let c: char = s.get_char(i);
        proof {
            let t = s@.subrange(0, i + 1);
            assert(t[t.len() - 1] == s@[i as int]);
            assert(t.subrange(0, t.len() - 1) =~= s@.subrange(0, i as int));
        }
        if c == '/' || c == '\\' {
            cut = i + 1;
        }
        i = i + 1;
    }
    proof {
        assert(s@.subrange(0, n as int) =~= s@);
    }
    let r = substring_copy(s, cut, n);
    r
}

/// Copies the character range `[from, to)` of `s` into a fresh string.
pub fn substring_copy(s: &str, from: usize, to: usize) -> (r: String)
    requires
        from <= to <= s@.len(),
    ensures
        r@ == s@.subrange(from as int, to as int),
{
    let sub: &str = s.substring_char(from, to);
    String::from_str(sub)
}

/// ASCII whitespace.
pub open spec fn spec_is_space(c: char) -> bool {
    c == ' ' || c == '\t' || c == '\n' || c == '\r'
}

/// Whether `s` is empty or holds only ASCII whitespace.
pub fn is_blank(s: &str) -> (r: bool)
    ensures
        r == (forall|j: int| 0 <= j < s@.len() ==> spec_is_space(s@[j])),
{
    let n: usize = s.unicode_len();
    let mut i: usize = 0;
    while i < n
        invariant
            n == s@.len(),
            i <= n,
            forall|j: int| 0 <= j < i ==> spec_is_space(s@[j]),
        decreases n - i,
    {
        let c: char = s.get_char(i);
        if !(c == ' ' || c == '\t' || c == '\n' || c == '\r') {
            return false;
        }
        i = i + 1;
    }
    true
}

} // verus!
