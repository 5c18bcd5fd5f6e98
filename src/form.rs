use crate::text::same_text;
use vstd::prelude::*;
use vstd::string::*;
use vstd::utf8::encode_utf8;

verus! {

/// The name/value pairs that a URL-encoded form body decodes to, where it
/// decodes.
pub uninterp spec fn form_pairs_of(body: Seq<u8>) -> Option<Seq<(Seq<char>, Seq<char>)>>;

/// The pairs of a list of pairs of strings, as text.
pub open spec fn pairs_view(v: Seq<(String, String)>) -> Seq<(Seq<char>, Seq<char>)> {
    v.map_values(|p: (String, String)| (p.0@, p.1@))
}

/// Relies on serde_urlencoded::from_bytes into a list of name/value pairs:
/// the body split on `&` and `=`, with `+` and `%XX` escapes decoded.
#[verifier::external_body]
fn form_pairs(body: &[u8]) -> (r: Option<Vec<(String, String)>>)
    ensures
        match r {
            Some(v) => form_pairs_of(body@) == Some(pairs_view(v@)),
            None => form_pairs_of(body@) is None,
        },
{
    serde_urlencoded::from_bytes::<Vec<(String, String)>>(body).ok()
}

/// The values given to the field `name`, in order.
pub open spec fn values_named(pairs: Seq<(Seq<char>, Seq<char>)>, name: Seq<char>) -> Seq<Seq<char>>
    decreases pairs.len(),
{
    if pairs.len() == 0 {
        Seq::empty()
    } else {
        let rest = values_named(pairs.drop_last(), name);
        if pairs.last().0 == name {
            rest.push(pairs.last().1)
        } else {
            rest
        }
    }
}

/// Why a login form was not accepted.
#[derive(Clone, Copy, Debug, PartialEq, Eq, Structural)]
pub enum FormError {
    /// The body is not a form with exactly one `username` and one `password`.
    Malformed,
    /// The username or the password is empty.
    Empty,
}

/// What a login form body gives: the username and the password, or why not.
/// Fields other than these two are ignored.
pub open spec fn credentials_of(body: Seq<u8>) -> Result<(Seq<char>, Seq<char>), FormError> {
    match form_pairs_of(body) {
        None => Err(FormError::Malformed),
        Some(p) => {
            let u = values_named(p, "username"@);
            let w = values_named(p, "password"@);
            if u.len() != 1 || w.len() != 1 {
                Err(FormError::Malformed)
            } else if u[0].len() == 0 || w[0].len() == 0 {
                Err(FormError::Empty)
            } else {
                Ok((u[0], w[0]))
            }
        },
    }
}

/// The SHA-256 digest of some bytes.
pub uninterp spec fn sha256_of(data: Seq<u8>) -> Seq<u8>;

/// Relies on sha2::Sha256::digest: the 32-byte digest of `data`.
#[verifier::external_body]
fn sha256(data: &[u8]) -> (r: Vec<u8>)
    ensures
        r@ == sha256_of(data@),
        r@.len() == 32,
{
    <sha2::Sha256 as sha2::Digest>::digest(data).to_vec()
}

/// The lower-case hexadecimal digit for `n` below 16.
pub open spec fn hex_digit(n: u8) -> char {
    if n < 10 {
        (('0' as u8) + n) as char
    } else {
        (('a' as u8) + n - 10) as char
    }
}

/// Bytes written as lower-case hexadecimal, two digits a byte, high half first.
pub open spec fn hex_of(b: Seq<u8>) -> Seq<char> {
    Seq::new(
        2 * b.len(),
        |i: int|
            if i % 2 == 0 {
                hex_digit(b[i / 2] / 16)
            } else {
                hex_digit(b[i / 2] % 16)
            },
    )
}

/// Relies on hex::encode, which writes each byte as two lower-case digits.
#[verifier::external_body]
fn hex_encode(b: &[u8]) -> (r: String)
    ensures
        r@ == hex_of(b@),
{
    hex::encode(b)
}

/// The credentials that a login form carries.
pub struct User {
    pub username: String,
    pub password: String,
}

impl User {
    /// Reads the credentials out of a URL-encoded login form body.
    pub fn from_form(body: &[u8]) -> (r: Result<User, FormError>)
        ensures
            match r {
                Ok(u) => credentials_of(body@) == Ok::<(Seq<char>, Seq<char>), FormError>(
                    (u.username@, u.password@),
                ),
                Err(e) => credentials_of(body@) == Err::<(Seq<char>, Seq<char>), FormError>(e),
            },
    {
        let pairs = match form_pairs(body) {
            Some(p) => p,
            None => return Err(FormError::Malformed),
        };
        let ghost pv = pairs_view(pairs@);
        let mut username: Option<String> = None;
        let mut password: Option<String> = None;
        let mut users: usize = 0;
        let mut passwords: usize = 0;
        let mut i: usize = 0;
        while i < pairs.len()
            invariant
                i <= pairs@.len(),
                pv == pairs_view(pairs@),
                form_pairs_of(body@) == Some(pv),
                users == values_named(pv.subrange(0, i as int), "username"@).len(),
                passwords == values_named(pv.subrange(0, i as int), "password"@).len(),
                users <= i,
                passwords <= i,
                users >= 1 ==> username is Some && values_named(pv.subrange(0, i as int), "username"@)[0] == username.unwrap()@,
                passwords >= 1 ==> password is Some && values_named(pv.subrange(0, i as int), "password"@)[0] == password.unwrap()@,
            decreases pairs@.len() - i,
        {
            proof {
                lemma_values_named_prefix(pv, i as int, "username"@);
                lemma_values_named_prefix(pv, i as int, "password"@);
                reveal_strlit("username");
                reveal_strlit("password");
                assert("username"@[0] != "password"@[0]);
            }
            let name = pairs[i].0.as_str();
            if same_text(name, "username") {
                if users == 0 {
                    username = Some(pairs[i].1.clone());
                }
                users = users + 1;
            } else if same_text(name, "password") {
                if passwords == 0 {
                    password = Some(pairs[i].1.clone());
                }
                passwords = passwords + 1;
            }
            i = i + 1;
        }
        assert(pv.subrange(0, pairs@.len() as int) =~= pv);
        if users != 1 || passwords != 1 {
            return Err(FormError::Malformed);
        }
        let username = username.unwrap();
        let password = password.unwrap();
        if username.as_str().unicode_len() == 0 || password.as_str().unicode_len() == 0 {
            return Err(FormError::Empty);
        }
        Ok(User { username, password })
    }

    /// The password as the credential table stores it: its SHA-256 digest
    /// over its UTF-8 bytes, in lower-case hexadecimal.
    pub fn password_digest(&self) -> (r: String)
        ensures
            r@ == hex_of(sha256_of(encode_utf8(self.password@))),
    {
        let bytes = self.password.as_str().as_bytes();
        let digest = sha256(bytes);
        hex_encode(digest.as_slice())
    }
}

proof fn lemma_values_named_prefix(pv: Seq<(Seq<char>, Seq<char>)>, i: int, name: Seq<char>)
    requires
        0 <= i < pv.len(),
    ensures
        values_named(pv.subrange(0, i + 1), name) == if pv[i].0 == name {
            values_named(pv.subrange(0, i), name).push(pv[i].1)
        } else {
            values_named(pv.subrange(0, i), name)
        },
{
    assert(pv.subrange(0, i + 1).drop_last() =~= pv.subrange(0, i));
}

} // verus!
