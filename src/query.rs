use crate::text::{find_char, find_char_in, lemma_find_char_bounds, same_text};
use vstd::prelude::*;
use vstd::string::*;
use vstd::utf8::encode_utf8;

verus! {

/// The value of the first `&`-separated piece of the query `q`, from index
/// `start` on, that starts with `key`; an empty value counts as none.
pub open spec fn param_from(q: Seq<char>, key: Seq<char>, start: int) -> Option<Seq<char>>
    decreases q.len() - start,
{
    if start < 0 || start > q.len() {
        None
    } else {
        let end = find_char(q, '&', start, q.len() as int);
        let seg = q.subrange(start, end);
        if key.is_prefix_of(seg) {
            if seg.len() == key.len() {
                None
            } else {
                Some(seg.subrange(key.len() as int, seg.len() as int))
            }
        } else if end >= q.len() || end < start {
            None
        } else {
            param_from(q, key, end + 1)
        }
    }
}

/// The value of the parameter `name` in the query string `q`: the rest of the
/// first piece that starts with `name=`, if that rest is not empty.
pub open spec fn query_param(q: Seq<char>, name: Seq<char>) -> Option<Seq<char>> {
    param_from(q, name + "="@, 0)
}

/// Finds `query_param(query, name)`.
pub fn get_query_param(query: &str, name: &str) -> (r: Option<String>)
    ensures
        match r {
            Some(v) => query_param(query@, name@) == Some(v@),
            None => query_param(query@, name@) is None,
        },
{
    let key = String::from_str(name).concat("=");
    let key = key.as_str();
    let k = key.unicode_len();
    let n = query.unicode_len();
    let mut start: usize = 0;
    while start <= n
        invariant
            n == query@.len(),
            k == key@.len(),
            key@ == name@ + "="@,
            start <= n,
            param_from(query@, key@, start as int) == query_param(query@, name@),
        decreases n - start,
    {
        let end = find_char_in(query, '&', start, n);
        proof {
            lemma_find_char_bounds(query@, '&', start as int, n as int);
        }
        let ghost seg = query@.subrange(start as int, end as int);
        if end - start >= k && same_text(query.substring_char(start, start + k), key) {
            assert(key@.is_prefix_of(seg)) by {
                assert(seg.subrange(0, k as int) =~= query@.subrange(start as int, start + k));
            }
            if end - start == k {
                return None;
            }
            let v = query.substring_char(start + k, end);
            assert(v@ =~= seg.subrange(k as int, seg.len() as int));
            return Some(String::from_str(v));
        }
        assert(!key@.is_prefix_of(seg)) by {
            if key@.is_prefix_of(seg) {
                assert(query@.subrange(start as int, start + k) =~= seg.subrange(0, k as int));
            }
        }
        if end >= n {
            return None;
        }
        start = end + 1;
    }
    None
}

/// What a percent-encoded text decodes to, where it decodes to valid UTF-8.
pub uninterp spec fn url_decoded(s: Seq<char>) -> Option<Seq<char>>;

/// Relies on urlencoding::decode: the text with each `%XX` escape turned back
/// into its byte, or an error when the bytes are not UTF-8.
#[verifier::external_body]
pub(crate) fn url_decode(s: &str) -> (r: Option<String>)
    ensures
        match r {
            Some(v) => url_decoded(s@) == Some(v@),
            None => url_decoded(s@) is None,
        },
{
    match urlencoding::decode(s) {
        Ok(v) => Some(v.into_owned()),
        Err(_) => None,
    }
}

/// Bytes that percent-encoding leaves as they are: ASCII letters, digits and
/// `-`, `_`, `.`, `~`.
pub open spec fn is_unreserved(b: u8) -> bool {
    (0x41 <= b <= 0x5a) || (0x61 <= b <= 0x7a) || (0x30 <= b <= 0x39) || b == 0x2d || b == 0x5f
        || b == 0x2e || b == 0x7e
}

/// The upper-case hexadecimal digit for `n` below 16.
pub open spec fn upper_hex_digit(n: u8) -> char {
    if n < 10 {
        ((0x30u8) + n) as char
    } else {
        ((0x41u8) + n - 10) as char
    }
}

/// One byte, percent-encoded: itself, or `%` and two upper-case hex digits.
pub open spec fn encoded_byte(b: u8) -> Seq<char> {
    if is_unreserved(b) {
        seq![b as char]
    } else {
        seq!['%', upper_hex_digit(b / 16), upper_hex_digit(b % 16)]
    }
}

/// Bytes percent-encoded one after another.
pub open spec fn percent_encoded(b: Seq<u8>) -> Seq<char>
    decreases b.len(),
{
    if b.len() == 0 {
        Seq::empty()
    } else {
        percent_encoded(b.drop_last()) + encoded_byte(b.last())
    }
}

/// What a text comes to once its UTF-8 bytes are percent-encoded.
pub open spec fn url_encoded(s: Seq<char>) -> Seq<char> {
    percent_encoded(encode_utf8(s))
}

#[verifier::external_body]
pub(crate) fn url_encode(s: &str) -> (r: String)
    ensures
        r@ == url_encoded(s@),
{
    urlencoding::encode(s).into_owned()
}

/// How a message on the login page is to be shown.
#[derive(Clone, Copy, Debug, PartialEq, Eq, Structural)]
pub enum Severity {
    Success,
    Warning,
    Error,
}

/// The name of a severity in the `status` query parameter.
pub open spec fn severity_text(s: Severity) -> Seq<char> {
    match s {
        Severity::Success => "success"@,
        Severity::Warning => "warning"@,
        Severity::Error => "error"@,
    }
}

/// The severity that a `status` value names, if it names one.
pub open spec fn severity_named(t: Seq<char>) -> Option<Severity> {
    if t == "success"@ {
        Some(Severity::Success)
    } else if t == "warning"@ {
        Some(Severity::Warning)
    } else if t == "error"@ {
        Some(Severity::Error)
    } else {
        None
    }
}

impl Severity {
    /// The name of the severity.
    pub fn as_str(&self) -> (r: &'static str)
        ensures
            r@ == severity_text(*self),
    {
        match self {
            Severity::Success => "success",
            Severity::Warning => "warning",
            Severity::Error => "error",
        }
    }

    /// The severity named `t`, if any.
    pub fn from_name(t: &str) -> (r: Option<Severity>)
        ensures
            r == severity_named(t@),
    {
        if same_text(t, "success") {
            Some(Severity::Success)
        } else if same_text(t, "warning") {
            Some(Severity::Warning)
        } else if same_text(t, "error") {
            Some(Severity::Error)
        } else {
            None
        }
    }
}

} // verus!
