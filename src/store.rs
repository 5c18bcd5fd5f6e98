use crate::session::{expiry, expiry_after, live_at, Session, SessionView};
use vstd::prelude::*;
use vstd::string::*;

verus! {

/// The sessions, keyed by token, in a `hashbrown::HashMap`; what it holds is
/// `session_map_contents`.
#[verifier::external_body]
pub struct SessionMap {
    inner: hashbrown::HashMap<String, Session>,
}

/// What a `SessionMap` holds: each key's session.
pub uninterp spec fn session_map_contents(m: SessionMap) -> Map<Seq<char>, SessionView>;

impl SessionMap {
    /// Relies on hashbrown::HashMap::new: a new map is empty.
    #[verifier::external_body]
    fn new() -> (r: SessionMap)
        ensures
            forall|k: Seq<char>| !#[trigger] session_map_contents(r).contains_key(k),
    {
        SessionMap { inner: hashbrown::HashMap::new() }
    }

    /// Relies on hashbrown::HashMap::get: the session stored under `key`, if
    /// any, handed out as a copy.
    #[verifier::external_body]
    fn get(&self, key: &str) -> (r: Option<Session>)
        ensures
            match r {
                Some(s) => session_map_contents(*self).contains_key(key@) && session_map_contents(
                    *self,
                )[key@] == s@,
                None => !session_map_contents(*self).contains_key(key@),
            },
    {
        self.inner.get(key).cloned()
    }

    /// Relies on hashbrown::HashMap::contains_key.
    #[verifier::external_body]
    fn contains_key(&self, key: &str) -> (r: bool)
        ensures
            r == session_map_contents(*self).contains_key(key@),
    {
        self.inner.contains_key(key)
    }

    /// Relies on hashbrown::HashMap::insert: `key` maps to `s` afterwards, and
    /// no other key changes.
    #[verifier::external_body]
    fn insert(&mut self, key: String, s: Session)
        ensures
            session_map_contents(*final(self)) == session_map_contents(*old(self)).insert(
                key@,
                s@,
            ),
    {
        self.inner.insert(key, s);
    }

    /// Relies on hashbrown::HashMap::remove: `key` is absent afterwards, and no
    /// other key changes.
    #[verifier::external_body]
    fn remove(&mut self, key: &str)
        ensures
            session_map_contents(*final(self)) == session_map_contents(*old(self)).remove(key@),
    {
        self.inner.remove(key);
    }

    /// Relies on hashbrown::HashMap::keys: a copy of every key, in an order
    /// that the map does not promise.
    #[verifier::external_body]
    fn keys(&self) -> (r: Vec<String>)
        ensures
            forall|k: Seq<char>|
                #[trigger] session_map_contents(*self).contains_key(k) ==> exists|j: int|
                    0 <= j < r@.len() && r@[j]@ == k,
    {
        self.inner.keys().cloned().collect()
    }
}

/// Relies on uuid::Uuid::new_v4 and its hyphenated text form, which is always
/// 36 characters long. The value itself is random.
#[verifier::external_body]
pub(crate) fn new_token() -> (r: String)
    ensures
        r@.len() == 36,
{
    uuid::Uuid::new_v4().to_string()
}

/// Why a session could not be created.
#[derive(Clone, Copy, Debug, PartialEq, Eq, Structural)]
pub enum CreateError {
    /// The user already holds a live session.
    AlreadyLoggedIn,
    /// The token drawn for the new session is already in use.
    TokenCollision,
}

/// Every session is stored under its own token.
pub open spec fn keyed_by_token(m: Map<Seq<char>, SessionView>) -> bool {
    forall|k: Seq<char>| #[trigger] m.contains_key(k) ==> m[k].token == k
}

/// Of two sessions of one user, at least one has expired by `clock`; so at any
/// time from `clock` on, each user has at most one live session.
pub open spec fn one_live_per_user(m: Map<Seq<char>, SessionView>, clock: int) -> bool {
    forall|k1: Seq<char>, k2: Seq<char>|
        #![trigger m[k1], m[k2]]
        m.contains_key(k1) && m.contains_key(k2) && k1 != k2 && m[k1].user == m[k2].user ==> m[k1].expires
            <= clock || m[k2].expires <= clock
}

/// Whether `user` holds a session that is live at `t`.
pub open spec fn has_live_session(m: Map<Seq<char>, SessionView>, user: Seq<char>, t: int) -> bool {
    exists|k: Seq<char>| #[trigger] m.contains_key(k) && m[k].user == user && live_at(m[k], t)
}

/// The time at which an operation acts: the later of the caller's clock and
/// the latest time that the store has seen, so that time never runs backwards
/// inside the store.
pub open spec fn acting_time(clock: int, now: int) -> int {
    if now > clock {
        now
    } else {
        clock
    }
}

/// The registry of live sessions, keyed by token.
pub struct SessionStore {
    sessions: SessionMap,
    clock: i64,
}

impl View for SessionStore {
    type V = Map<Seq<char>, SessionView>;

    closed spec fn view(&self) -> Map<Seq<char>, SessionView> {
        session_map_contents(self.sessions)
    }
}

impl SessionStore {
    /// The latest time that an operation of the store has acted at.
    pub closed spec fn clock(&self) -> int {
        self.clock as int
    }

    /// The store's invariant: sessions are keyed by their tokens, and no user
    /// holds two sessions that are live at once from the store's clock on.
    pub open spec fn wf(&self) -> bool {
        keyed_by_token(self@) && one_live_per_user(self@, self.clock()) && i64::MIN <= self.clock()
            <= i64::MAX
    }

    /// Moves the store's clock to `now` unless it has already seen a later
    /// time, and returns the time at which the store now acts.
    pub fn observe_time(&mut self, now: i64) -> (t: i64)
        requires
            old(self).wf(),
        ensures
            t as int == acting_time(old(self).clock(), now as int),
            final(self).clock() == t as int,
            final(self)@ == old(self)@,
            final(self).wf(),
    {
        if now > self.clock {
            self.clock = now;
        }
        self.clock
    }

    /// An empty store.
    pub fn new() -> (r: SessionStore)
        ensures
            r@ == Map::<Seq<char>, SessionView>::empty(),
            r.clock() == i64::MIN as int,
            r.wf(),
    {
        let sessions = SessionMap::new();
        let r = SessionStore { sessions, clock: i64::MIN };
        assert(r@ =~= Map::<Seq<char>, SessionView>::empty());
        r
    }

    /// Whether `user` holds a session that is live at `t`.
    fn user_has_live_session(&self, user: &String, t: i64) -> (r: bool)
        ensures
            r == has_live_session(self@, user@, t as int),
    {
        let keys = self.sessions.keys();
        let mut i: usize = 0;
        while i < keys.len()
            invariant
                i <= keys@.len(),
                forall|j: int|
                    0 <= j < i ==> !(self@.contains_key(#[trigger] keys@[j]@) && self@[keys@[j]@].user
                        == user@ && live_at(self@[keys@[j]@], t as int)),
                forall|k: Seq<char>|
                    #[trigger] self@.contains_key(k) ==> exists|j: int|
                        0 <= j < keys@.len() && keys@[j]@ == k,
            decreases keys@.len() - i,
        {
            match self.sessions.get(keys[i].as_str()) {
                Some(s) => {
                    if s.user == *user && t < s.expires {
                        return true;
                    }
                },
                None => {},
            }
            i = i + 1;
        }
        proof {
            assert forall|k: Seq<char>|
                self@.contains_key(k) && self@[k].user == user@ implies !live_at(
                #[trigger] self@[k],
                t as int,
            ) by {
                let j = choose|j: int| 0 <= j < keys@.len() && keys@[j]@ == k;
                assert(!(self@.contains_key(keys@[j]@) && self@[keys@[j]@].user == user@ && live_at(
                    self@[keys@[j]@],
                    t as int,
                )));
            }
        }
        false
    }

    /// Creates a session for `user` under the given `token`, live for `ttl`
    /// seconds from the acting time. Refused when `user` already holds a live
    /// session, or when `token` is already in use; the check and the insertion
    /// are one step.
    pub fn create_with_token(&mut self, user: &str, admin: bool, ttl: i64, now: i64, token: String) -> (r: Result<Session, CreateError>)
        requires
            old(self).wf(),
        ensures
            final(self).wf(),
            final(self).clock() == acting_time(old(self).clock(), now as int),
            ({
                let t = acting_time(old(self).clock(), now as int);
                match r {
                    Ok(s) => {
                        &&& !has_live_session(old(self)@, user@, t)
                        &&& !old(self)@.contains_key(token@)
                        &&& s@ == SessionView {
                            user: user@,
                            token: token@,
                            admin,
                            expires: expiry(t, ttl as int),
                        }
                        &&& final(self)@ == old(self)@.insert(token@, s@)
                    },
                    Err(CreateError::AlreadyLoggedIn) => {
                        &&& has_live_session(old(self)@, user@, t)
                        &&& final(self)@ == old(self)@
                    },
                    Err(CreateError::TokenCollision) => {
                        &&& !has_live_session(old(self)@, user@, t)
                        &&& old(self)@.contains_key(token@)
                        &&& final(self)@ == old(self)@
                    },
                }
            }),
    {
        let t = self.observe_time(now);
        let user = String::from_str(user);
        if self.user_has_live_session(&user, t) {
            return Err(CreateError::AlreadyLoggedIn);
        }
        if self.sessions.contains_key(token.as_str()) {
            return Err(CreateError::TokenCollision);
        }
        let expires = expiry_after(t, ttl);
        let stored = Session { admin, user: user.clone(), token: token.clone(), expires };
        self.sessions.insert(token.clone(), stored);
        Ok(Session { admin, user, token, expires })
    }

    /// Creates a session for `user` under a fresh random token, live for `ttl`
    /// seconds from the acting time. Refused when `user` already holds a live
    /// session; the check and the insertion are one step.
    pub fn create(&mut self, user: &str, admin: bool, ttl: i64, now: i64) -> (r: Result<Session, CreateError>)
        requires
            old(self).wf(),
        ensures
            final(self).wf(),
            final(self).clock() == acting_time(old(self).clock(), now as int),
            ({
                let t = acting_time(old(self).clock(), now as int);
                match r {
                    Ok(s) => {
                        &&& !has_live_session(old(self)@, user@, t)
                        &&& !old(self)@.contains_key(s.token@)
                        &&& s.token@.len() == 36
                        &&& s@ == SessionView {
                            user: user@,
                            token: s.token@,
                            admin,
                            expires: expiry(t, ttl as int),
                        }
                        &&& final(self)@ == old(self)@.insert(s.token@, s@)
                    },
                    Err(CreateError::AlreadyLoggedIn) => {
                        &&& has_live_session(old(self)@, user@, t)
                        &&& final(self)@ == old(self)@
                    },
                    Err(CreateError::TokenCollision) => {
                        &&& !has_live_session(old(self)@, user@, t)
                        &&& final(self)@ == old(self)@
                        &&& exists|k: Seq<char>| #[trigger]
                            old(self)@.contains_key(k) && k.len() == 36
                    },
                }
            }),
    {
        let token = new_token();
        self.create_with_token(user, admin, ttl, now, token)
    }

    /// The session stored under `token`, live or not.
    pub fn get_token(&self, token: &str) -> (r: Option<Session>)
        ensures
            match r {
                Some(s) => self@.contains_key(token@) && self@[token@] == s@,
                None => !self@.contains_key(token@),
            },
    {
        self.sessions.get(token)
    }

    /// A session stored for `user`, live or not; which one, where there are
    /// several, is not fixed.
    pub fn get_user(&self, user: &str) -> (r: Option<Session>)
        requires
            self.wf(),
        ensures
            match r {
                Some(s) => self@.contains_key(s.token@) && self@[s.token@] == s@ && s.user@ == user@,
                None => forall|k: Seq<char>| #[trigger]
                    self@.contains_key(k) ==> self@[k].user != user@,
            },
    {
        let name = String::from_str(user);
        let keys = self.sessions.keys();
        let mut i: usize = 0;
        while i < keys.len()
            invariant
                i <= keys@.len(),
                forall|j: int|
                    0 <= j < i ==> !(self@.contains_key(#[trigger] keys@[j]@) && self@[keys@[j]@].user
                        == name@),
                keyed_by_token(self@),
                name@ == user@,
                forall|k: Seq<char>|
                    #[trigger] self@.contains_key(k) ==> exists|j: int|
                        0 <= j < keys@.len() && keys@[j]@ == k,
            decreases keys@.len() - i,
        {
            match self.sessions.get(keys[i].as_str()) {
                Some(s) => {
                    if s.user == name {
                        assert(self@[keys@[i as int]@].token == keys@[i as int]@);
                        return Some(s);
                    }
                },
                None => {},
            }
            i = i + 1;
        }
        proof {
            assert forall|k: Seq<char>| #[trigger] self@.contains_key(k) implies self@[k].user
                != name@ by {
                let j = choose|j: int| 0 <= j < keys@.len() && keys@[j]@ == k;
                assert(!(self@.contains_key(keys@[j]@) && self@[keys@[j]@].user == name@));
            }
        }
        None
    }

    /// Restarts the session under `token` so that it lasts `ttl` seconds from
    /// the acting time, if that session is live then; otherwise changes no
    /// session.
    pub fn renew(&mut self, token: &str, ttl: i64, now: i64)
        requires
            old(self).wf(),
        ensures
            final(self).wf(),
            final(self).clock() == acting_time(old(self).clock(), now as int),
            ({
                let t = acting_time(old(self).clock(), now as int);
                if old(self)@.contains_key(token@) && live_at(old(self)@[token@], t) {
                    final(self)@ == old(self)@.insert(
                        token@,
                        SessionView { expires: expiry(t, ttl as int), ..old(self)@[token@] },
                    )
                } else {
                    final(self)@ == old(self)@
                }
            }),
    {
        let t = self.observe_time(now);
        match self.sessions.get(token) {
            Some(s) => {
                if t < s.expires {
                    let key = String::from_str(token);
                    let renewed = Session { expires: expiry_after(t, ttl), ..s };
                    self.sessions.insert(key, renewed);
                }
            },
            None => {},
        }
    }

    /// Deletes the session under `token`, if any. Removing an absent token is
    /// no error.
    pub fn remove(&mut self, token: &str)
        requires
            old(self).wf(),
        ensures
            final(self).wf(),
            final(self).clock() == old(self).clock(),
            final(self)@ == old(self)@.remove(token@),
    {
        self.sessions.remove(token);
    }

    /// The session under `token` if it is live at the acting time. A session
    /// found expired is deleted on the way.
    pub fn lookup_live(&mut self, token: &str, now: i64) -> (r: Option<Session>)
        requires
            old(self).wf(),
        ensures
            final(self).wf(),
            final(self).clock() == acting_time(old(self).clock(), now as int),
            ({
                let t = acting_time(old(self).clock(), now as int);
                if old(self)@.contains_key(token@) && live_at(old(self)@[token@], t) {
                    &&& r is Some
                    &&& r.unwrap()@ == old(self)@[token@]
                    &&& final(self)@ == old(self)@
                } else {
                    &&& r is None
                    &&& final(self)@ == old(self)@.remove(token@)
                }
            }),
    {
        let t = self.observe_time(now);
        match self.sessions.get(token) {
            Some(s) => {
                if t < s.expires {
                    Some(s)
                } else {
                    self.sessions.remove(token);
                    None
                }
            },
            None => {
                proof {
                    assert(self@.remove(token@) =~= self@);
                }
                None
            },
        }
    }

    /// Checks the session under `token` at the acting time: a live one is
    /// renewed for `ttl` seconds and returned as renewed; an expired one is
    /// deleted; an absent one gives nothing.
    pub fn validate(&mut self, token: &str, ttl: i64, now: i64) -> (r: Option<Session>)
        requires
            old(self).wf(),
        ensures
            final(self).wf(),
            final(self).clock() == acting_time(old(self).clock(), now as int),
            ({
                let t = acting_time(old(self).clock(), now as int);
                if old(self)@.contains_key(token@) && live_at(old(self)@[token@], t) {
                    &&& r is Some
                    &&& r.unwrap()@ == SessionView {
                        expires: expiry(t, ttl as int),
                        ..old(self)@[token@]
                    }
                    &&& final(self)@ == old(self)@.insert(token@, r.unwrap()@)
                } else {
                    &&& r is None
                    &&& final(self)@ == old(self)@.remove(token@)
                }
            }),
    {
        match self.lookup_live(token, now) {
            Some(s) => {
                let t = self.clock;
                self.renew(token, ttl, t);
                Some(Session { expires: expiry_after(t, ttl), ..s })
            },
            None => None,
        }
    }
}

/// Tokens handed out by successive creations are pairwise distinct: when each
/// step inserts a session under a token that was absent before, no two steps
/// share a token.
pub proof fn lemma_created_tokens_distinct(
    stores: Seq<Map<Seq<char>, SessionView>>,
    made: Seq<SessionView>,
)
    requires
        stores.len() == made.len() + 1,
        forall|i: int|
            #![trigger made[i]]
            0 <= i < made.len() ==> !stores[i].contains_key(made[i].token) && stores[i + 1]
                == stores[i].insert(made[i].token, made[i]),
    ensures
        forall|i: int, j: int|
            0 <= i < made.len() && 0 <= j < made.len() && i != j ==> made[i].token != made[j].token,
{
    assert forall|i: int, j: int| 0 <= i < j < made.len() implies stores[j].contains_key(
        #[trigger] made[i].token,
    ) && #[trigger] made[j].token != made[i].token by {
        lemma_token_kept(stores, made, i, j);
    }
    assert forall|i: int, j: int|
        0 <= i < made.len() && 0 <= j < made.len() && i != j implies made[i].token
        != made[j].token by {
        if i < j {
            assert(made[j].token != made[i].token);
        } else {
            assert(made[i].token != made[j].token);
        }
    }
}

proof fn lemma_token_kept(stores: Seq<Map<Seq<char>, SessionView>>, made: Seq<SessionView>, i: int, j: int)
    requires
        stores.len() == made.len() + 1,
        forall|i: int|
            #![trigger made[i]]
            0 <= i < made.len() ==> !stores[i].contains_key(made[i].token) && stores[i + 1]
                == stores[i].insert(made[i].token, made[i]),
        0 <= i < j <= made.len(),
    ensures
        stores[j].contains_key(made[i].token),
    decreases j - i,
{
    if j == i + 1 {
        assert(stores[i + 1] == stores[i].insert(made[i].token, made[i]));
    } else {
        lemma_token_kept(stores, made, i, j - 1);
        assert(stores[j] == stores[j - 1].insert(made[j - 1].token, made[j - 1]));
    }
}

/// In a well-formed store no user holds two sessions that are live at the
/// same time, at the store's clock or later.
pub proof fn lemma_one_live_session_per_user(store: SessionStore, user: Seq<char>, t: int)
    requires
        store.wf(),
        t >= store.clock(),
    ensures
        forall|k1: Seq<char>, k2: Seq<char>|
            #![trigger store@[k1], store@[k2]]
            store@.contains_key(k1) && store@.contains_key(k2) && store@[k1].user == user
                && store@[k2].user == user && live_at(store@[k1], t) && live_at(store@[k2], t)
                ==> k1 == k2,
{
}

/// A session that starts at `t` with a positive lifetime `ttl` is live at `t`
/// and no longer live at any time past `t + ttl`.
pub proof fn lemma_expiry_window(s: SessionView, t: int, ttl: int, later: int)
    requires
        s.expires == expiry(t, ttl),
        ttl > 0,
        i64::MIN <= t < i64::MAX,
        i64::MIN <= ttl <= i64::MAX,
        later > t + ttl,
    ensures
        live_at(s, t),
        !live_at(s, later),
{
}

/// Renewing at time `t` for `ttl` seconds sets the expiry to `t + ttl`
/// (within the range of timestamps), whatever the expiry was before.
pub proof fn lemma_renewal_from_now(
    before: Map<Seq<char>, SessionView>,
    after: Map<Seq<char>, SessionView>,
    token: Seq<char>,
    t: int,
    ttl: int,
)
    requires
        before.contains_key(token),
        after == before.insert(token, SessionView { expires: expiry(t, ttl), ..before[token] }),
    ensures
        after[token].expires == expiry(t, ttl),
        i64::MIN <= t + ttl <= i64::MAX ==> after[token].expires == t + ttl,
        after[token].user == before[token].user,
        after[token].admin == before[token].admin,
{
}

/// Removing a token twice leaves the same store as removing it once, and
/// removing an absent token changes nothing; either way the token is gone.
pub proof fn lemma_remove_idempotent(m: Map<Seq<char>, SessionView>, token: Seq<char>)
    ensures
        m.remove(token).remove(token) == m.remove(token),
        !m.remove(token).contains_key(token),
        !m.contains_key(token) ==> m.remove(token) == m,
{
    assert(m.remove(token).remove(token) =~= m.remove(token));
    if !m.contains_key(token) {
        assert(m.remove(token) =~= m);
    }
}

/// Of two creations for one user, the second is refused while the session of
/// the first is live: after a creation inserts a session for `user` that is
/// live at `t`, the user holds a live session at `t`, which `create` refuses.
pub proof fn lemma_second_creation_refused(
    before: Map<Seq<char>, SessionView>,
    after: Map<Seq<char>, SessionView>,
    made: SessionView,
    user: Seq<char>,
    t: int,
)
    requires
        after == before.insert(made.token, made),
        made.user == user,
        live_at(made, t),
    ensures
        has_live_session(after, user, t),
{
    assert(after.contains_key(made.token) && after[made.token].user == user && live_at(
        after[made.token],
        t,
    ));
}

} // verus!
