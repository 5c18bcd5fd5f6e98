use vstd::prelude::*;
use vstd::string::*;

verus! {

/// The first index in `[a, e)` whose character is `c`, or `e` when there is
/// none.
pub open spec fn find_char(s: Seq<char>, c: char, a: int, e: int) -> int
    decreases e - a,
{
    if a >= e {
        e
    } else if s[a] == c {
        a
    } else {
        find_char(s, c, a + 1, e)
    }
}

/// Optional white space of HTTP headers: space and horizontal tab.
pub open spec fn is_ows(c: char) -> bool {
    c == ' ' || c == '\t'
}

/// The first index in `[a, e)` that is not white space, or `e`.
pub open spec fn skip_ows(s: Seq<char>, a: int, e: int) -> int
    decreases e - a,
{
    if a >= e {
        e
    } else if is_ows(s[a]) {
        skip_ows(s, a + 1, e)
    } else {
        a
    }
}

/// The end of `[a, e)` once trailing white space is cut off.
pub open spec fn trim_ows_end(s: Seq<char>, a: int, e: int) -> int
    decreases e - a,
{
    if e <= a {
        a
    } else if is_ows(s[e - 1]) {
        trim_ows_end(s, a, e - 1)
    } else {
        e
    }
}

pub proof fn lemma_find_char_bounds(s: Seq<char>, c: char, a: int, e: int)
    requires
        a <= e,
    ensures
        a <= find_char(s, c, a, e) <= e,
    decreases e - a,
{
    if a < e && s[a] != c {
        lemma_find_char_bounds(s, c, a + 1, e);
    }
}

pub proof fn lemma_skip_ows_bounds(s: Seq<char>, a: int, e: int)
    requires
        a <= e,
    ensures
        a <= skip_ows(s, a, e) <= e,
    decreases e - a,
{
    if a < e && is_ows(s[a]) {
        lemma_skip_ows_bounds(s, a + 1, e);
    }
}

pub proof fn lemma_trim_ows_end_bounds(s: Seq<char>, a: int, e: int)
    requires
        a <= e,
    ensures
        a <= trim_ows_end(s, a, e) <= e,
    decreases e - a,
{
    if a < e && is_ows(s[e - 1]) {
        lemma_trim_ows_end_bounds(s, a, e - 1);
    }
}

/// Computes `find_char` over the characters of `s`.
pub fn find_char_in(s: &str, c: char, a: usize, e: usize) -> (r: usize)
    requires
        a <= e <= s@.len(),
    ensures
        r as int == find_char(s@, c, a as int, e as int),
{
    let mut i = a;
    while i < e
        invariant
            a <= i <= e <= s@.len(),
            find_char(s@, c, i as int, e as int) == find_char(s@, c, a as int, e as int),
        decreases e - i,
    {
        if s.get_char(i) == c {
            return i;
        }
        i = i + 1;
    }
    i
}

/// Computes `skip_ows` over the characters of `s`.
pub fn skip_ows_in(s: &str, a: usize, e: usize) -> (r: usize)
    requires
        a <= e <= s@.len(),
    ensures
        r as int == skip_ows(s@, a as int, e as int),
{
    let mut i = a;
    while i < e
        invariant
            a <= i <= e <= s@.len(),
            skip_ows(s@, i as int, e as int) == skip_ows(s@, a as int, e as int),
        decreases e - i,
    {
        let c = s.get_char(i);
        if !(c == ' ' || c == '\t') {
            return i;
        }
        i = i + 1;
    }
    i
}

/// Computes `trim_ows_end` over the characters of `s`.
pub fn trim_ows_end_in(s: &str, a: usize, e: usize) -> (r: usize)
    requires
        a <= e <= s@.len(),
    ensures
        r as int == trim_ows_end(s@, a as int, e as int),
{
    let mut j = e;
    while j > a
        invariant
            a <= j <= e <= s@.len(),
            trim_ows_end(s@, a as int, j as int) == trim_ows_end(s@, a as int, e as int),
        decreases j - a,
    {
        let c = s.get_char(j - 1);
        if !(c == ' ' || c == '\t') {
            return j;
        }
        j = j - 1;
    }
    j
}

/// Whether two pieces of text are equal.
pub fn same_text(a: &str, b: &str) -> (r: bool)
    ensures
        r == (a@ == b@),
{
    String::from_str(a) == String::from_str(b)
}

} // verus!
