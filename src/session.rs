use vstd::prelude::*;

verus! {

/// What a session holds, as mathematical values.
pub ghost struct SessionView {
    pub user: Seq<char>,
    pub token: Seq<char>,
    pub admin: bool,
    pub expires: int,
}

/// A session is live at time `t` exactly when `t` lies before its expiry.
pub open spec fn live_at(s: SessionView, t: int) -> bool {
    t < s.expires
}

/// The expiry of a session that starts at `t` and lasts `ttl` seconds; a sum
/// past the largest timestamp stays at the largest timestamp.
pub open spec fn expiry(t: int, ttl: int) -> int {
    if t + ttl > i64::MAX {
        i64::MAX as int
    } else if t + ttl < i64::MIN {
        i64::MIN as int
    } else {
        t + ttl
    }
}

/// Computes `expiry(t, ttl)` without overflow.
pub fn expiry_after(t: i64, ttl: i64) -> (r: i64)
    ensures
        r as int == expiry(t as int, ttl as int),
{
    match t.checked_add(ttl) {
        Some(e) => e,
        None => if ttl > 0 {
            i64::MAX
        } else {
            i64::MIN
        },
    }
}

/// One authenticated principal's grant: who, with which rights, under which
/// token, and until when (seconds since the Unix epoch).
#[derive(Clone, Debug)]
pub struct Session {
    pub admin: bool,
    pub user: String,
    pub token: String,
    pub expires: i64,
}

impl View for Session {
    type V = SessionView;

    open spec fn view(&self) -> SessionView {
        SessionView {
            user: self.user@,
            token: self.token@,
            admin: self.admin,
            expires: self.expires as int,
        }
    }
}

impl Session {
    /// Whether the session is still live at time `now`.
    pub fn is_valid(&self, now: i64) -> (r: bool)
        ensures
            r == live_at(self@, now as int),
    {
        now < self.expires
    }

    /// Whether the session is past its expiry at time `now`.
    pub fn expired(&self, now: i64) -> (r: bool)
        ensures
            r == !live_at(self@, now as int),
    {
        !self.is_valid(now)
    }

    /// Whether the session was granted administrator rights.
    pub fn is_admin(&self) -> (r: bool)
        ensures
            r == self.admin,
    {
        self.admin
    }
}

} // verus!
