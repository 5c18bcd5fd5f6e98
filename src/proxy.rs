use crate::text::{find_char, find_char_in, lemma_find_char_bounds, same_text};
use vstd::prelude::*;
use vstd::string::*;

verus! {

/// The length of the scheme prefix (`https://` or `http://`) that `u` starts
/// with, or zero.
pub open spec fn scheme_len(u: Seq<char>) -> int {
    if "https://"@.is_prefix_of(u) {
        "https://"@.len() as int
    } else if "http://"@.is_prefix_of(u) {
        "http://"@.len() as int
    } else {
        0
    }
}

/// The host part of an upstream address: what follows the scheme, up to the
/// first `/`.
pub open spec fn host_of(u: Seq<char>) -> Seq<char> {
    u.subrange(scheme_len(u), find_char(u, '/', scheme_len(u), u.len() as int))
}

/// The one upstream that approved requests are relayed to, written as a base
/// address such as `https://example.com`.
pub struct Proxy {
    pub upstream: String,
}

impl Proxy {
    /// A forwarder to the upstream at `upstream`.
    pub fn new(upstream: &str) -> (r: Proxy)
        ensures
            r.upstream@ == upstream@,
    {
        Proxy { upstream: String::from_str(upstream) }
    }

    /// The address that a request for `path_and_query` is sent to: the
    /// upstream followed by the path and query unchanged.
    pub fn target_uri(&self, path_and_query: &str) -> (r: String)
        ensures
            r@ == self.upstream@ + path_and_query@,
    {
        self.upstream.clone().concat(path_and_query)
    }

    /// The value of the `Host` header on a forwarded request: the host part of
    /// the upstream.
    pub fn host(&self) -> (r: String)
        ensures
            r@ == host_of(self.upstream@),
    {
        let u = self.upstream.as_str();
        let n = u.unicode_len();
        proof {
            reveal_strlit("https://");
            reveal_strlit("http://");
        }
        let a: usize = if n >= 8 && same_text(u.substring_char(0, 8), "https://") {
            assert(u@.subrange(0, 8) == "https://"@);
            8
        } else if n >= 7 && same_text(u.substring_char(0, 7), "http://") {
            assert(u@.subrange(0, 7) == "http://"@);
            proof {
                if "https://"@.is_prefix_of(u@) {
                    assert(u@.subrange(0, 8) =~= "https://"@);
                }
            }
            7
        } else {
            proof {
                if "https://"@.is_prefix_of(u@) {
                    assert(u@.subrange(0, 8) =~= "https://"@);
                }
                if "http://"@.is_prefix_of(u@) {
                    assert(u@.subrange(0, 7) =~= "http://"@);
                }
            }
            0
        };
        assert(a as int == scheme_len(u@));
        let e = find_char_in(u, '/', a, n);
        proof {
            lemma_find_char_bounds(u@, '/', a as int, n as int);
        }
        String::from_str(u.substring_char(a, e))
    }
}

} // verus!
