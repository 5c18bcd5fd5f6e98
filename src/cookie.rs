use crate::text::{
    find_char, find_char_in, lemma_find_char_bounds, lemma_skip_ows_bounds, lemma_trim_ows_end_bounds,
    same_text, skip_ows, skip_ows_in, trim_ows_end, trim_ows_end_in,
};
use vstd::prelude::*;
use vstd::string::*;

verus! {

/// The value of the first cookie named `name` in a `Cookie` header, reading
/// from index `start`: the header is split on `;`, each piece is trimmed of
/// white space, and the first piece whose part before its first `=` is `name`
/// gives the part after that `=`. Pieces without `=` match no name.
pub open spec fn cookie_value_from(h: Seq<char>, name: Seq<char>, start: int) -> Option<Seq<char>>
    decreases h.len() - start,
{
    if start < 0 || start > h.len() {
        None
    } else {
        let end = find_char(h, ';', start, h.len() as int);
        let a = skip_ows(h, start, end);
        let b = trim_ows_end(h, a, end);
        let p = find_char(h, '=', a, b);
        if p < b && h.subrange(a, p) == name {
            Some(h.subrange(p + 1, b))
        } else if end >= h.len() || end < start {
            None
        } else {
            cookie_value_from(h, name, end + 1)
        }
    }
}

/// The value of the cookie `name` in the `Cookie` header `h`, if there is one.
pub open spec fn cookie_value(h: Seq<char>, name: Seq<char>) -> Option<Seq<char>> {
    cookie_value_from(h, name, 0)
}

/// The session token that a `Cookie` header carries under the cookie `name`.
/// A header that holds no such cookie gives none; a malformed piece is
/// skipped, never an error.
pub fn session_token(header: &str, name: &str) -> (r: Option<String>)
    ensures
        match r {
            Some(v) => cookie_value(header@, name@) == Some(v@),
            None => cookie_value(header@, name@) is None,
        },
{
    let n = header.unicode_len();
    let mut start: usize = 0;
    while start <= n
        invariant
            n == header@.len(),
            start <= n,
            cookie_value_from(header@, name@, start as int) == cookie_value(header@, name@),
        decreases n - start,
    {
        let end = find_char_in(header, ';', start, n);
        proof {
            lemma_find_char_bounds(header@, ';', start as int, n as int);
        }
        let a = skip_ows_in(header, start, end);
        proof {
            lemma_skip_ows_bounds(header@, start as int, end as int);
        }
        let b = trim_ows_end_in(header, a, end);
        proof {
            lemma_trim_ows_end_bounds(header@, a as int, end as int);
        }
        let p = find_char_in(header, '=', a, b);
        proof {
            lemma_find_char_bounds(header@, '=', a as int, b as int);
        }
        if p < b && same_text(header.substring_char(a, p), name) {
            let v = header.substring_char(p + 1, b);
            return Some(String::from_str(v));
        }
        if end >= n {
            return None;
        }
        start = end + 1;
    }
    None
}

/// The `Set-Cookie` value that hands the client the session `token`.
pub open spec fn session_cookie_text(name: Seq<char>, token: Seq<char>) -> Seq<char> {
    name + "="@ + token + "; HttpOnly; Path=/"@
}

/// The `Set-Cookie` value that clears the session cookie: an empty value that
/// expired long ago.
pub open spec fn cleared_cookie_text(name: Seq<char>) -> Seq<char> {
    name + "=; HttpOnly; Path=/; Expires=Thu, 01 Jan 1970 00:00:00 GMT"@
}

/// Builds `session_cookie_text(name, token)`.
pub fn session_cookie(name: &str, token: &str) -> (r: String)
    ensures
        r@ == session_cookie_text(name@, token@),
{
    let r = String::from_str(name).concat("=").concat(token).concat("; HttpOnly; Path=/");
    proof {
        assert(r@ =~= session_cookie_text(name@, token@));
    }
    r
}

/// Builds `cleared_cookie_text(name)`.
pub fn cleared_cookie(name: &str) -> (r: String)
    ensures
        r@ == cleared_cookie_text(name@),
{
    String::from_str(name).concat("=; HttpOnly; Path=/; Expires=Thu, 01 Jan 1970 00:00:00 GMT")
}

} // verus!
