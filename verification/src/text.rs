//! Character-sequence helpers shared by the shortcut and IPC modules:
//! substring search, ASCII case mapping, and equality over `&str` views.

use vstd::prelude::*;
use vstd::string::StrSliceExecFns;

verus! {

/// `pat` occurs in `s` starting at index `i`.
pub open spec fn match_at(s: Seq<char>, pat: Seq<char>, i: int) -> bool {
    0 <= i && i + pat.len() <= s.len() && s.subrange(i, i + pat.len()) =~= pat
}

/// `pat` occurs somewhere in `s`.
pub open spec fn contains_seq(s: Seq<char>, pat: Seq<char>) -> bool {
    exists|i: int| match_at(s, pat, i)
}

/// Whether `pat` matches `s` at position `i`.
pub fn str_match_at(s: &str, pat: &str, i: usize) -> (r: bool)
    requires
        i + pat@.len() <= s@.len(),
    ensures
        r == match_at(s@, pat@, i as int),
{
    let n = s.unicode_len();
    let m = pat.unicode_len();
    let mut j: usize = 0;
    while j < m
        invariant
            0 <= j <= m,
            n == s@.len(),
            m == pat@.len(),
            i + m <= s@.len(),
            forall|k: int| 0 <= k < j ==> s@[i + k] == pat@[k],
        decreases m - j,
    {
        if s.get_char(i + j) != pat.get_char(j) {
            assert(s@.subrange(i as int, i + m) =~= pat@ ==> s@[i + j] == pat@[j as int]);
            return false;
        }
        j += 1;
    }
    assert(s@.subrange(i as int, i + m) =~= pat@);
    true
}

/// Substring test over character views.
pub fn str_contains(s: &str, pat: &str) -> (r: bool)
    ensures
        r == contains_seq(s@, pat@),
{
    let n = s.unicode_len();
    let m = pat.unicode_len();
    if m > n {
        assert(forall|i: int| !match_at(s@, pat@, i));
        return false;
    }
    let mut i: usize = 0;
    while i <= n - m
        invariant
            0 <= i <= n - m + 1,
            m <= n,
            n == s@.len(),
            m == pat@.len(),
            forall|k: int| 0 <= k < i ==> !match_at(s@, pat@, k),
        decreases n - m + 1 - i,
    {
        if str_match_at(s, pat, i) {
            return true;
        }
        i += 1;
    }
    assert(forall|k: int| match_at(s@, pat@, k) ==> 0 <= k <= n - m);
    false
}

/// A match at position `pos` of `s` is a match at the front of the
/// suffix of `s` starting there.
pub proof fn lemma_match_skip(s: Seq<char>, pat: Seq<char>, pos: int)
    requires
        0 <= pos <= s.len(),
    ensures
        match_at(s, pat, pos) == match_at(s.skip(pos), pat, 0),
{
    if pos + pat.len() <= s.len() {
        assert(s.skip(pos).subrange(0, pat.len() as int) =~= s.subrange(pos, pos + pat.len()));
        if match_at(s, pat, pos) {
            assert(s.skip(pos).subrange(0, pat.len() as int) =~= pat);
        }
        if match_at(s.skip(pos), pat, 0) {
            assert(s.subrange(pos, pos + pat.len()) =~= pat);
        }
    }
}

/// The first position at or after `i` where `pat` occurs in `s`.
pub open spec fn first_match_from(s: Seq<char>, pat: Seq<char>, i: int) -> Option<int>
    decreases s.len() - i,
    when 0 <= i
{
    if i + pat.len() > s.len() {
        Option::None
    } else if match_at(s, pat, i) {
        Option::Some(i)
    } else {
        first_match_from(s, pat, i + 1)
    }
}

/// Finds the first occurrence of `pat` in `s` at or after `from`.
pub fn find_first(s: &str, pat: &str, from: usize) -> (r: Option<usize>)
    requires
        from <= s@.len(),
    ensures
        match r {
            Option::Some(i) => first_match_from(s@, pat@, from as int) == Option::Some(i as int)
                && from <= i && match_at(s@, pat@, i as int),
            Option::None => first_match_from(s@, pat@, from as int) is None,
        },
{
    let n = s.unicode_len();
    let m = pat.unicode_len();
    let mut i: usize = from;
    loop
        invariant
            from <= i <= n,
            n == s@.len(),
            m == pat@.len(),
            first_match_from(s@, pat@, from as int) == first_match_from(s@, pat@, i as int),
        decreases n - i,
    {
        if m > n - i {
            return Option::None;
        }
        if str_match_at(s, pat, i) {
            return Option::Some(i);
        }
        i += 1;
    }
}

/// ASCII upper-casing of one character; everything else is left alone.
pub open spec fn upper_char(c: char) -> char {
    if 'a' <= c && c <= 'z' {
        ((c as u8) - 32) as char
    } else {
        c
    }
}

/// ASCII lower-casing of one character; everything else is left alone.
pub open spec fn lower_char(c: char) -> char {
    if 'A' <= c && c <= 'Z' {
        ((c as u8) + 32) as char
    } else {
        c
    }
}

/// ASCII upper-casing of a character sequence.
pub open spec fn upper_seq(s: Seq<char>) -> Seq<char> {
    s.map_values(|c: char| upper_char(c))
}

/// ASCII lower-casing of a character sequence.
pub open spec fn lower_seq(s: Seq<char>) -> Seq<char> {
    s.map_values(|c: char| lower_char(c))
}

/// Relies on String::push: appends exactly the given character.
#[verifier::external_body]
pub fn push_char(s: &mut String, c: char)
    ensures
        final(s)@ == old(s)@.push(c),
{
    s.push(c);
}

fn upper_char_exec(c: char) -> (r: char)
    ensures
        r == upper_char(c),
{
    if 'a' <= c && c <= 'z' {
        ((c as u8) - 32) as char
    } else {
        c
    }
}

fn lower_char_exec(c: char) -> (r: char)
    ensures
        r == lower_char(c),
{
    if 'A' <= c && c <= 'Z' {
        ((c as u8) + 32) as char
    } else {
        c
    }
}

/// ASCII upper-casing of a string slice.
pub fn to_ascii_upper(s: &str) -> (r: String)
    ensures
        r@ == upper_seq(s@),
{
    let n = s.unicode_len();
    let mut out = String::new();
    let mut i: usize = 0;
    while i < n
        invariant
            0 <= i <= n,
            n == s@.len(),
            out@ =~= upper_seq(s@).take(i as int),
        decreases n - i,
    {
        push_char(&mut out, upper_char_exec(s.get_char(i)));
        assert(out@ =~= upper_seq(s@).take(i + 1));
        i += 1;
    }
    assert(out@ =~= upper_seq(s@));
    out
}

/// ASCII lower-casing of a string slice.
pub fn to_ascii_lower(s: &str) -> (r: String)
    ensures
        r@ == lower_seq(s@),
{
    let n = s.unicode_len();
    let mut out = String::new();
    let mut i: usize = 0;
    while i < n
        invariant
            0 <= i <= n,
            n == s@.len(),
            out@ =~= lower_seq(s@).take(i as int),
        decreases n - i,
    {
        push_char(&mut out, lower_char_exec(s.get_char(i)));
        assert(out@ =~= lower_seq(s@).take(i + 1));
        i += 1;
    }
    assert(out@ =~= lower_seq(s@));
    out
}

/// Equality of two string slices, at the level of their character views.
pub fn str_eq(a: &str, b: &str) -> (r: bool)
    ensures
        r == (a@ == b@),
{
    let n = a.unicode_len();
    if n != b.unicode_len() {
        return false;
    }
    let mut i: usize = 0;
    while i < n
        invariant
            0 <= i <= n,
            n == a@.len() == b@.len(),
            forall|k: int| 0 <= k < i ==> a@[k] == b@[k],
        decreases n - i,
    {
        if a.get_char(i) != b.get_char(i) {
            assert(a@ == b@ ==> a@[i as int] == b@[i as int]);
            return false;
        }
        i += 1;
    }
    assert(a@ =~= b@);
    true
}

} // verus!
