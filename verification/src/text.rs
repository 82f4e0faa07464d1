//! Verified text utilities: substring search, prefix tests, trimming, and
//! decimal formatting.
//!
//! These carry the string work of the command layer: recognising command
//! prefixes, pulling a track identifier out of a pasted URL, and formatting
//! numbers for user-facing notices.
use vstd::prelude::*;

verus! {

/// The position of the first occurrence of `pat` in `s` at or after `i`,
/// searching left to right.
pub open spec fn find_sub_at(s: Seq<char>, pat: Seq<char>, i: int) -> Option<int>
    decreases s.len() - i,
{
    if pat.len() == 0 {
        if 0 <= i <= s.len() {
            Some(i)
        } else {
            None
        }
    } else if i < 0 || i + pat.len() > s.len() {
        None
    } else if s.subrange(i, i + pat.len() as int) == pat {
        Some(i)
    } else {
        find_sub_at(s, pat, i + 1)
    }
}

/// The position of the first occurrence of `pat` in `s`, if any.
pub open spec fn spec_find(s: Seq<char>, pat: Seq<char>) -> Option<int> {
    find_sub_at(s, pat, 0)
}

/// Whether `pat` occurs in `s`.
pub open spec fn spec_contains_sub(s: Seq<char>, pat: Seq<char>) -> bool {
    spec_find(s, pat) is Some
}

/// What a found position means: it lies at or after the search start, the
/// pattern fits there, and (for a non-empty pattern) it matches there.
pub proof fn lemma_find_sub_at_props(s: Seq<char>, pat: Seq<char>, j: int, i: int)
    requires
        find_sub_at(s, pat, j) == Some(i),
    ensures
        j <= i,
        0 <= i,
        i + pat.len() <= s.len(),
        pat.len() > 0 ==> s.subrange(i, i + pat.len() as int) == pat,
    decreases s.len() - j,
{
    if pat.len() == 0 {
    } else if j < 0 || j + pat.len() > s.len() {
    } else if s.subrange(j, j + pat.len() as int) == pat {
    } else {
        lemma_find_sub_at_props(s, pat, j + 1, i);
    }
}

/// Whether `s` begins with `pat`.
pub open spec fn spec_starts_with(s: Seq<char>, pat: Seq<char>) -> bool {
    pat.len() <= s.len() && s.subrange(0, pat.len() as int) == pat
}

/// Whether `pat` stands in `s` at position `i`.
pub fn matches_at(s: &str, pat: &str, i: usize, s_len: usize, pat_len: usize) -> (r: bool)
    requires
        s_len == s@.len(),
        pat_len == pat@.len(),
        i + pat_len <= s_len,
    ensures
        r == (s@.subrange(i as int, i + pat@.len()) == pat@),
{
    let mut k: usize = 0;
    while k < pat_len
        invariant
            s_len == s@.len(),
            pat_len == pat@.len(),
            i + pat_len <= s_len,
            0 <= k <= pat_len,
            forall|j: int| 0 <= j < k ==> s@[i + j] == pat@[j],
        decreases pat_len - k,
    {
        if s.get_char(i + k) != pat.get_char(k) {
            proof {
                let sub = s@.subrange(i as int, i + pat@.len());
                assert(sub[k as int] == s@[i + k]);
            }
            return false;
        }
        k = k + 1;
    }
    proof {
        assert(s@.subrange(i as int, i + pat@.len()) =~= pat@);
    }
    true
}

/// The position of the first occurrence of `pat` in `s`, searching left to
/// right, or `None` when `pat` does not occur.
pub fn find_str(s: &str, pat: &str) -> (r: Option<usize>)
    ensures
        match r {
            Some(i) => spec_find(s@, pat@) == Some(i as int),
            None => spec_find(s@, pat@) is None,
        },
{
    let s_len = s.unicode_len();
    let pat_len = pat.unicode_len();
    if pat_len == 0 {
        return Some(0);
    }
    if pat_len > s_len {
        return None;
    }
    let mut i: usize = 0;
    while i <= s_len - pat_len
        invariant
            s_len == s@.len(),
            pat_len == pat@.len(),
            1 <= pat_len <= s_len,
            0 <= i <= s_len - pat_len + 1,
            spec_find(s@, pat@) == find_sub_at(s@, pat@, i as int),
        decreases s_len - i,
    {
        if matches_at(s, pat, i, s_len, pat_len) {
            return Some(i);
        }
        proof {
            assert(find_sub_at(s@, pat@, i as int) == find_sub_at(s@, pat@, i + 1));
        }
        i = i + 1;
    }
    proof {
        assert(find_sub_at(s@, pat@, i as int) is None);
    }
    None
}

/// Whether `pat` occurs anywhere in `s`.
pub fn contains_str(s: &str, pat: &str) -> (r: bool)
    ensures
        r == spec_contains_sub(s@, pat@),
{
    find_str(s, pat).is_some()
}

/// Whether `s` begins with `pat`.
pub fn starts_with_str(s: &str, pat: &str) -> (r: bool)
    ensures
        r == spec_starts_with(s@, pat@),
{
    let s_len = s.unicode_len();
    let pat_len = pat.unicode_len();
    if pat_len > s_len {
        return false;
    }
    matches_at(s, pat, 0, s_len, pat_len)
}

/// Whether two string slices hold the same characters.
pub fn str_eq(a: &str, b: &str) -> (r: bool)
    ensures
        r == (a@ == b@),
{
    let al = a.unicode_len();
    let bl = b.unicode_len();
    if al != bl {
        return false;
    }
    let r = matches_at(a, b, 0, al, bl);
    proof {
        assert(a@.subrange(0, a@.len() as int) =~= a@);
    }
    r
}

/// Whitespace for the purpose of trimming command arguments.
pub open spec fn is_space(c: char) -> bool {
    c == ' ' || c == '\t' || c == '\n' || c == '\r'
}

/// `s` with leading whitespace removed.
pub open spec fn spec_trim_start(s: Seq<char>) -> Seq<char>
    decreases s.len(),
{
    if s.len() > 0 && is_space(s[0]) {
        spec_trim_start(s.drop_first())
    } else {
        s
    }
}

/// `s` with trailing whitespace removed.
pub open spec fn spec_trim_end(s: Seq<char>) -> Seq<char>
    decreases s.len(),
{
    if s.len() > 0 && is_space(s.last()) {
        spec_trim_end(s.drop_last())
    } else {
        s
    }
}

/// `s` with leading and trailing whitespace removed.
pub open spec fn spec_trim(s: Seq<char>) -> Seq<char> {
    spec_trim_end(spec_trim_start(s))
}

fn is_space_char(c: char) -> (r: bool)
    ensures
        r == is_space(c),
{
    c == ' ' || c == '\t' || c == '\n' || c == '\r'
}

/// A copy of `s` with leading and trailing whitespace removed.
pub fn trim_str(s: &str) -> (r: String)
    ensures
        r@ == spec_trim(s@),
{
    let len = s.unicode_len();
    proof {
        assert(s@.skip(0) =~= s@);
    }
    let mut a: usize = 0;
    while a < len && is_space_char(s.get_char(a))
        invariant
            len == s@.len(),
            0 <= a <= len,
            spec_trim_start(s@) == spec_trim_start(s@.skip(a as int)),
        decreases len - a,
    {
        proof {
            assert(s@.skip(a as int).drop_first() =~= s@.skip(a + 1));
            assert(s@.skip(a as int)[0] == s@[a as int]);
        }
        a = a + 1;
    }
    proof {
        if a < len {
            assert(s@.skip(a as int)[0] == s@[a as int]);
        }
        assert(spec_trim_start(s@) == s@.skip(a as int));
    }
    let mut b: usize = len;
    proof {
        assert(s@.skip(a as int) =~= s@.subrange(a as int, len as int));
    }
    while b > a && is_space_char(s.get_char(b - 1))
        invariant
            len == s@.len(),
            0 <= a <= b <= len,
            spec_trim_start(s@) == s@.skip(a as int),
            spec_trim_end(s@.skip(a as int)) == spec_trim_end(s@.subrange(a as int, b as int)),
        decreases b,
    {
        proof {
            let mid = s@.subrange(a as int, b as int);
            assert(mid.last() == s@[b - 1]);
            assert(mid.drop_last() =~= s@.subrange(a as int, b - 1));
        }
        b = b - 1;
    }
    proof {
        let mid = s@.subrange(a as int, b as int);
        if b > a {
            assert(mid.last() == s@[b - 1]);
        }
        assert(spec_trim_end(mid) == mid);
    }
    s.substring_char(a, b).to_owned()
}

/// The decimal digit character for `d`.
pub open spec fn spec_digit(d: int) -> char {
    if d == 0 {
        '0'
    } else if d == 1 {
        '1'
    } else if d == 2 {
        '2'
    } else if d == 3 {
        '3'
    } else if d == 4 {
        '4'
    } else if d == 5 {
        '5'
    } else if d == 6 {
        '6'
    } else if d == 7 {
        '7'
    } else if d == 8 {
        '8'
    } else {
        '9'
    }
}

/// The decimal digits of `n`, most significant first; `0` is written "0".
pub open spec fn spec_dec(n: int) -> Seq<char>
    decreases n,
{
    if n < 10 {
        seq![spec_digit(n)]
    } else {
        spec_dec(n / 10).push(spec_digit(n % 10))
    }
}

/// The one-character string for a decimal digit.
fn digit_str(d: u64) -> (s: &'static str)
    requires
        d < 10,
    ensures
        s@ == seq![spec_digit(d as int)],
{
    proof {
        reveal_strlit("0");
        reveal_strlit("1");
        reveal_strlit("2");
        reveal_strlit("3");
        reveal_strlit("4");
        reveal_strlit("5");
        reveal_strlit("6");
        reveal_strlit("7");
        reveal_strlit("8");
        reveal_strlit("9");
    }
    let s = match d {
        0 => "0",
        1 => "1",
        2 => "2",
        3 => "3",
        4 => "4",
        5 => "5",
        6 => "6",
        7 => "7",
        8 => "8",
        _ => "9",
    };
    proof {
        assert(s@ =~= seq![spec_digit(d as int)]);
    }
    s
}

/// `n` written in decimal.
pub fn u64_to_string(n: u64) -> (r: String)
    ensures
        r@ == spec_dec(n as int),
{
    let mut r = String::new();
    let mut m = n;
    loop
        invariant_except_break
            m > 0 ==> spec_dec(n as int) == spec_dec(m as int) + r@,
            m == 0 ==> r@.len() == 0 && n == 0,
        ensures
            spec_dec(n as int) == r@,
        decreases m,
    {
        let ghost m0 = m as int;
        let ghost r0 = r@;
        let d = m % 10;
        let cs = digit_str(d);
        r = String::from_str(cs).concat(r.as_str());
        proof {
            if m0 >= 10 {
                assert(spec_dec(m0) == spec_dec(m0 / 10).push(spec_digit(m0 % 10)));
                assert(spec_dec(m0 / 10).push(spec_digit(m0 % 10)) + r0 =~= spec_dec(m0 / 10) + (
                seq![spec_digit(m0 % 10)] + r0));
            } else if m0 > 0 {
                assert(spec_dec(m0) =~= seq![spec_digit(m0)]);
            } else {
                assert(spec_dec(0) =~= seq![spec_digit(0)]);
            }
        }
        m = m / 10;
        if m == 0 {
            break ;
        }
    }
    r
}

} // verus!
