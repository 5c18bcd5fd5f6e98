use crate::cookie::{
    cleared_cookie, cleared_cookie_text, cookie_value, session_cookie, session_cookie_text,
    session_token,
};
use crate::form::{credentials_of, FormError, User};
use crate::proxy::{host_of, Proxy};
use crate::query::{
    get_query_param, query_param, severity_named, severity_text, url_decode, url_decoded, url_encode,
    url_encoded, Severity,
};
use crate::session::{expiry, live_at, SessionView};
use crate::store::{acting_time, has_live_session, new_token, CreateError, SessionStore};
use crate::text::same_text;
use vstd::prelude::*;
use vstd::string::*;

verus! {

/// Shown when something on the server side failed.
pub const SOMETHING_WENT_WRONG: &'static str = "Oops! Something went wrong. Please give it another try.";

/// Shown when a login form cannot be read.
pub const UNREADABLE_FORM: &'static str =
    "Oops! We couldn't process the information you provided. Can you please try again?";

/// Shown when a login form leaves the username or the password empty.
pub const MISSING_CREDENTIALS: &'static str = "Please enter both your username and your password.";

/// Shown when the credentials do not match.
pub const WRONG_CREDENTIALS: &'static str =
    "Sorry, either your username or password is incorrect. Please double-check and try again.";

/// Shown when a second session is refused.
pub const ALREADY_LOGGED_IN: &'static str = "You are already logged in.";

/// Shown after a successful login.
pub const LOGGED_IN: &'static str = "You have successfully logged in.";

/// Shown when a route needs a session and there is none.
pub const NOT_LOGGED_IN: &'static str = "You are not logged in.";

/// Shown after a logout.
pub const LOGGED_OUT: &'static str = "You have been logged out.";

/// Shown after an explicit renewal.
pub const RENEWED: &'static str = "Your session has been renewed.";

/// The request method, as far as routing cares.
#[derive(Clone, Copy, Debug, PartialEq, Eq, Structural)]
pub enum Method {
    Get,
    Post,
    Other,
}

/// What a request is, by method and exact path.
#[derive(Clone, Copy, Debug, PartialEq, Eq, Structural)]
pub enum Route {
    LoginPage,
    LoginSubmit,
    Logout,
    Renew,
    Admin,
    PassThrough,
}

/// The special routes under the base path `base`, in their order of
/// precedence; every other request is a pass-through candidate.
pub open spec fn route_of(base: Seq<char>, method: Method, path: Seq<char>) -> Route {
    if method == Method::Get && path == base + "/login"@ {
        Route::LoginPage
    } else if method == Method::Post && path == base + "/login"@ {
        Route::LoginSubmit
    } else if method == Method::Post && path == base + "/logout"@ {
        Route::Logout
    } else if method == Method::Get && path == base + "/renew"@ {
        Route::Renew
    } else if method == Method::Get && path == base + "/admin"@ {
        Route::Admin
    } else {
        Route::PassThrough
    }
}

/// Where the login page lives.
pub open spec fn login_location(base: Seq<char>) -> Seq<char> {
    base + "/login"@
}

/// The login page address that carries the message `msg` with severity `sev`.
pub open spec fn notice_location(base: Seq<char>, msg: Seq<char>, sev: Severity) -> Seq<char> {
    base + "/login?msg="@ + url_encoded(msg) + "&status="@ + severity_text(sev)
}

pub open spec fn opt_view(o: Option<String>) -> Option<Seq<char>> {
    match o {
        Some(s) => Some(s@),
        None => None,
    }
}

/// The session token that a request carries, given its `Cookie` header.
pub open spec fn request_token(cookie: Option<Seq<char>>, name: Seq<char>) -> Option<Seq<char>> {
    match cookie {
        Some(h) => cookie_value(h, name),
        None => None,
    }
}

/// Whether `tok` names a session of `m` that is live at `t`.
pub open spec fn live_token(m: Map<Seq<char>, SessionView>, tok: Option<Seq<char>>, t: int) -> bool {
    tok is Some && m.contains_key(tok.unwrap()) && live_at(m[tok.unwrap()], t)
}

/// The store after a lookup of `tok` at `t`: an expired session under it is
/// deleted, and nothing else changes.
pub open spec fn after_lookup(m: Map<Seq<char>, SessionView>, tok: Option<Seq<char>>, t: int) -> Map<
    Seq<char>,
    SessionView,
> {
    if tok is Some && !live_token(m, tok, t) {
        m.remove(tok.unwrap())
    } else {
        m
    }
}

/// A session restarted at `t` for `ttl` seconds.
pub open spec fn renewed(s: SessionView, t: int, ttl: int) -> SessionView {
    SessionView { expires: expiry(t, ttl), ..s }
}

/// The store after the live session under `tok` is renewed at `t`.
pub open spec fn after_renewal(m: Map<Seq<char>, SessionView>, tok: Option<Seq<char>>, t: int, ttl: int) -> Map<
    Seq<char>,
    SessionView,
> {
    m.insert(tok.unwrap(), renewed(m[tok.unwrap()], t, ttl))
}

/// A redirect, and the `Set-Cookie` value that goes with it, if any.
pub struct Redirect {
    pub location: String,
    pub set_cookie: Option<String>,
}

/// A request approved for the upstream: where it goes and its `Host` header.
pub struct Forward {
    pub uri: String,
    pub host: String,
}

/// The answer to a request.
pub enum Reply {
    /// Render the login form with these values.
    LoginForm(LoginPage),
    /// Render the administration page.
    AdminPage,
    /// Redirect the client.
    Redirect(Redirect),
    /// Relay the request to the upstream.
    Forward(Forward),
}

/// The values that the login form is rendered with.
pub struct LoginPage {
    pub login_route: String,
    pub logout_route: String,
    pub admin_route: String,
    pub logged_in: bool,
    pub admin: bool,
    pub title: String,
    pub msg: Option<String>,
    pub status: Option<Severity>,
}

pub ghost struct LoginPageView {
    pub login_route: Seq<char>,
    pub logout_route: Seq<char>,
    pub admin_route: Seq<char>,
    pub logged_in: bool,
    pub admin: bool,
    pub title: Seq<char>,
    pub msg: Option<Seq<char>>,
    pub status: Option<Severity>,
}

impl View for LoginPage {
    type V = LoginPageView;

    open spec fn view(&self) -> LoginPageView {
        LoginPageView {
            login_route: self.login_route@,
            logout_route: self.logout_route@,
            admin_route: self.admin_route@,
            logged_in: self.logged_in,
            admin: self.admin,
            title: self.title@,
            msg: opt_view(self.msg),
            status: self.status,
        }
    }
}

pub ghost enum ReplyView {
    LoginForm(LoginPageView),
    AdminPage,
    Redirect(Seq<char>, Option<Seq<char>>),
    Forward(Seq<char>, Seq<char>),
}

impl View for Reply {
    type V = ReplyView;

    open spec fn view(&self) -> ReplyView {
        match self {
            Reply::LoginForm(p) => ReplyView::LoginForm(p@),
            Reply::AdminPage => ReplyView::AdminPage,
            Reply::Redirect(d) => ReplyView::Redirect(d.location@, opt_view(d.set_cookie)),
            Reply::Forward(f) => ReplyView::Forward(f.uri@, f.host@),
        }
    }
}

/// The authentication front of the upstream: the base path of its special routes,
/// the name of its session cookie, the lifetime of a session in seconds, and
/// the upstream.
pub struct AuthGate {
    pub base: String,
    pub cookie_name: String,
    pub ttl: i64,
    pub proxy: Proxy,
}

impl AuthGate {
    /// A gate with special routes under `base`, sessions in the cookie
    /// `cookie_name` that last `ttl` seconds, and the upstream `upstream`.
    pub fn new(base: &str, cookie_name: &str, ttl: i64, upstream: &str) -> (r: AuthGate)
        ensures
            r.base@ == base@,
            r.cookie_name@ == cookie_name@,
            r.ttl == ttl,
            r.proxy.upstream@ == upstream@,
    {
        AuthGate {
            base: String::from_str(base),
            cookie_name: String::from_str(cookie_name),
            ttl,
            proxy: Proxy::new(upstream),
        }
    }

    /// Which route a request with `method` and `path` takes.
    pub fn classify(&self, method: Method, path: &str) -> (r: Route)
        ensures
            r == route_of(self.base@, method, path@),
    {
        let login = self.base.clone().concat("/login");
        if same_text(path, login.as_str()) {
            match method {
                Method::Get => return Route::LoginPage,
                Method::Post => return Route::LoginSubmit,
                Method::Other => return Route::PassThrough,
            }
        }
        match method {
            Method::Post => {
                let logout = self.base.clone().concat("/logout");
                if same_text(path, logout.as_str()) {
                    return Route::Logout;
                }
            },
            Method::Get => {
                let renew = self.base.clone().concat("/renew");
                if same_text(path, renew.as_str()) {
                    return Route::Renew;
                }
                let admin = self.base.clone().concat("/admin");
                if same_text(path, admin.as_str()) {
                    return Route::Admin;
                }
            },
            Method::Other => {},
        }
        Route::PassThrough
    }

    /// A redirect to the login page that shows `msg` with severity `sev`.
    pub fn notice(&self, msg: &str, sev: Severity, set_cookie: Option<String>) -> (r: Reply)
        ensures
            r@ == ReplyView::Redirect(notice_location(self.base@, msg@, sev), opt_view(set_cookie)),
    {
        let location = self.base.clone().concat("/login?msg=").concat(url_encode(msg).as_str()).concat(
            "&status=",
        ).concat(sev.as_str());
        Reply::Redirect(Redirect { location, set_cookie })
    }

    /// A plain redirect to the login page.
    pub fn to_login(&self) -> (r: Reply)
        ensures
            r@ == ReplyView::Redirect(login_location(self.base@), None),
    {
        Reply::Redirect(Redirect { location: self.base.clone().concat("/login"), set_cookie: None })
    }

    /// The session token of the request whose `Cookie` header is `cookie`.
    pub fn token(&self, cookie: Option<&str>) -> (r: Option<String>)
        ensures
            opt_view(r) == request_token(header_view(cookie), self.cookie_name@),
    {
        match cookie {
            Some(h) => session_token(h, self.cookie_name.as_str()),
            None => None,
        }
    }

    /// Where a pass-through request goes at time `t`, and the store after it.
    pub open spec fn pass_through_spec(
        &self,
        m: Map<Seq<char>, SessionView>,
        cookie: Option<Seq<char>>,
        path_and_query: Seq<char>,
        t: int,
    ) -> (ReplyView, Map<Seq<char>, SessionView>) {
        let tok = request_token(cookie, self.cookie_name@);
        if live_token(m, tok, t) {
            (
                ReplyView::Forward(
                    self.proxy.upstream@ + path_and_query,
                    host_of(self.proxy.upstream@),
                ),
                after_renewal(m, tok, t, self.ttl as int),
            )
        } else {
            (ReplyView::Redirect(login_location(self.base@), None), after_lookup(m, tok, t))
        }
    }

    /// A request for any other path: forwarded, with its session renewed, when
    /// it carries a live session; otherwise sent to the login page, and an
    /// expired session is deleted.
    pub fn pass_through(
        &self,
        store: &mut SessionStore,
        cookie: Option<&str>,
        path_and_query: &str,
        now: i64,
    ) -> (r: Reply)
        requires
            old(store).wf(),
        ensures
            final(store).wf(),
            final(store).clock() == acting_time(old(store).clock(), now as int),
            (r@, final(store)@) == self.pass_through_spec(
                old(store)@,
                header_view(cookie),
                path_and_query@,
                acting_time(old(store).clock(), now as int),
            ),
    {
        let t = store.observe_time(now);
        match self.token(cookie) {
            None => self.to_login(),
            Some(tok) => match store.validate(tok.as_str(), self.ttl, t) {
                Some(_) => Reply::Forward(
                    Forward { uri: self.proxy.target_uri(path_and_query), host: self.proxy.host() },
                ),
                None => self.to_login(),
            },
        }
    }

    /// What a logout at time `t` answers, and the store after it.
    pub open spec fn logout_spec(&self, m: Map<Seq<char>, SessionView>, cookie: Option<Seq<char>>, t: int) -> (
        ReplyView,
        Map<Seq<char>, SessionView>,
    ) {
        let tok = request_token(cookie, self.cookie_name@);
        let clear = Some(cleared_cookie_text(self.cookie_name@));
        if live_token(m, tok, t) {
            (
                ReplyView::Redirect(notice_location(self.base@, LOGGED_OUT@, Severity::Success), clear),
                m.remove(tok.unwrap()),
            )
        } else {
            (
                ReplyView::Redirect(
                    notice_location(self.base@, NOT_LOGGED_IN@, Severity::Warning),
                    clear,
                ),
                after_lookup(m, tok, t),
            )
        }
    }

    /// Logs the request's session out. The cookie is cleared whatever the
    /// request carried; a request without a live session is told that it is
    /// not logged in.
    pub fn logout(&self, store: &mut SessionStore, cookie: Option<&str>, now: i64) -> (r: Reply)
        requires
            old(store).wf(),
        ensures
            final(store).wf(),
            final(store).clock() == acting_time(old(store).clock(), now as int),
            (r@, final(store)@) == self.logout_spec(
                old(store)@,
                header_view(cookie),
                acting_time(old(store).clock(), now as int),
            ),
    {
        let t = store.observe_time(now);
        let clear = Some(cleared_cookie(self.cookie_name.as_str()));
        match self.token(cookie) {
            None => self.notice(NOT_LOGGED_IN, Severity::Warning, clear),
            Some(tok) => match store.lookup_live(tok.as_str(), t) {
                Some(_) => {
                    store.remove(tok.as_str());
                    self.notice(LOGGED_OUT, Severity::Success, clear)
                },
                None => self.notice(NOT_LOGGED_IN, Severity::Warning, clear),
            },
        }
    }

    /// What an explicit renewal at time `t` answers, and the store after it.
    pub open spec fn renew_spec(&self, m: Map<Seq<char>, SessionView>, cookie: Option<Seq<char>>, t: int) -> (
        ReplyView,
        Map<Seq<char>, SessionView>,
    ) {
        let tok = request_token(cookie, self.cookie_name@);
        if live_token(m, tok, t) {
            (
                ReplyView::Redirect(
                    notice_location(self.base@, RENEWED@, Severity::Success),
                    Some(session_cookie_text(self.cookie_name@, tok.unwrap())),
                ),
                after_renewal(m, tok, t, self.ttl as int),
            )
        } else {
            (
                ReplyView::Redirect(
                    notice_location(self.base@, NOT_LOGGED_IN@, Severity::Warning),
                    None,
                ),
                after_lookup(m, tok, t),
            )
        }
    }

    /// Renews the request's session on request, with the same check as a
    /// pass-through, and answers with a message instead of forwarding.
    pub fn renew(&self, store: &mut SessionStore, cookie: Option<&str>, now: i64) -> (r: Reply)
        requires
            old(store).wf(),
        ensures
            final(store).wf(),
            final(store).clock() == acting_time(old(store).clock(), now as int),
            (r@, final(store)@) == self.renew_spec(
                old(store)@,
                header_view(cookie),
                acting_time(old(store).clock(), now as int),
            ),
    {
        let t = store.observe_time(now);
        match self.token(cookie) {
            None => self.notice(NOT_LOGGED_IN, Severity::Warning, None),
            Some(tok) => match store.validate(tok.as_str(), self.ttl, t) {
                Some(_) => {
                    let c = session_cookie(self.cookie_name.as_str(), tok.as_str());
                    self.notice(RENEWED, Severity::Success, Some(c))
                },
                None => self.notice(NOT_LOGGED_IN, Severity::Warning, None),
            },
        }
    }

    /// What the administration route at time `t` answers, and the store after
    /// it.
    pub open spec fn admin_spec(&self, m: Map<Seq<char>, SessionView>, cookie: Option<Seq<char>>, t: int) -> (
        ReplyView,
        Map<Seq<char>, SessionView>,
    ) {
        let tok = request_token(cookie, self.cookie_name@);
        if live_token(m, tok, t) && m[tok.unwrap()].admin {
            (ReplyView::AdminPage, after_renewal(m, tok, t, self.ttl as int))
        } else {
            (ReplyView::Redirect(login_location(self.base@), None), after_lookup(m, tok, t))
        }
    }

    /// The administration page, for a live session with administrator rights
    /// only, which is renewed; anyone else is sent to the login page.
    pub fn admin(&self, store: &mut SessionStore, cookie: Option<&str>, now: i64) -> (r: Reply)
        requires
            old(store).wf(),
        ensures
            final(store).wf(),
            final(store).clock() == acting_time(old(store).clock(), now as int),
            (r@, final(store)@) == self.admin_spec(
                old(store)@,
                header_view(cookie),
                acting_time(old(store).clock(), now as int),
            ),
    {
        let t = store.observe_time(now);
        match self.token(cookie) {
            None => self.to_login(),
            Some(tok) => match store.lookup_live(tok.as_str(), t) {
                Some(s) => {
                    if s.admin {
                        store.renew(tok.as_str(), self.ttl, t);
                        Reply::AdminPage
                    } else {
                        self.to_login()
                    }
                },
                None => self.to_login(),
            },
        }
    }
}

/// A `Cookie` header as text, if there is one.
pub open spec fn header_view(c: Option<&str>) -> Option<Seq<char>> {
    match c {
        Some(h) => Some(h@),
        None => None,
    }
}

/// What an upper-case character comes to; some characters become several.
pub uninterp spec fn upper_of(c: char) -> Seq<char>;

/// Relies on char::to_uppercase: the upper-case form of `c`.
#[verifier::external_body]
fn upper(c: char) -> (r: String)
    ensures
        r@ == upper_of(c),
{
    c.to_uppercase().to_string()
}

/// A name with its first character in upper case.
pub open spec fn capitalized(u: Seq<char>) -> Seq<char> {
    if u.len() == 0 {
        u
    } else {
        upper_of(u[0]) + u.subrange(1, u.len() as int)
    }
}

/// Builds `capitalized(u)`.
pub fn capitalize(u: &str) -> (r: String)
    ensures
        r@ == capitalized(u@),
{
    let n = u.unicode_len();
    if n == 0 {
        return String::new();
    }
    upper(u.get_char(0)).concat(u.substring_char(1, n))
}

/// The message that the login page shows, from its query string.
pub open spec fn page_msg(query: Option<Seq<char>>) -> Option<Seq<char>> {
    match query {
        Some(q) => match query_param(q, "msg"@) {
            Some(v) => url_decoded(v),
            None => None,
        },
        None => None,
    }
}

/// The severity of that message, from the query string.
pub open spec fn page_status(query: Option<Seq<char>>) -> Option<Severity> {
    match query {
        Some(q) => match query_param(q, "status"@) {
            Some(v) => severity_named(v),
            None => None,
        },
        None => None,
    }
}

/// The outcome of checking a login submission's credentials.
#[derive(Clone, Copy, Debug, PartialEq, Eq, Structural)]
pub enum Credentials {
    /// The credentials match; the user has administrator rights or not.
    Valid { admin: bool },
    /// The credentials do not match.
    Invalid,
    /// The credential check itself failed.
    Unavailable,
}

/// A request, as far as routing and sessions read it: method, path, query string,
/// `Cookie` header and body.
pub struct Request {
    pub method: Method,
    pub path: String,
    pub query: Option<String>,
    pub cookie: Option<String>,
    pub body: Vec<u8>,
}

pub ghost struct RequestView {
    pub method: Method,
    pub path: Seq<char>,
    pub query: Option<Seq<char>>,
    pub cookie: Option<Seq<char>>,
    pub body: Seq<u8>,
}

impl View for Request {
    type V = RequestView;

    open spec fn view(&self) -> RequestView {
        RequestView {
            method: self.method,
            path: self.path@,
            query: opt_view(self.query),
            cookie: opt_view(self.cookie),
            body: self.body@,
        }
    }
}

/// The path and query string of a request, as the upstream receives them.
pub open spec fn path_and_query(req: RequestView) -> Seq<char> {
    match req.query {
        Some(q) => req.path + "?"@ + q,
        None => req.path,
    }
}

/// The answer to a request: a reply, or the credentials of a login
/// submission that must be checked before `finish_login` answers.
pub enum Step {
    Done(Reply),
    CheckCredentials(User),
}

pub ghost enum StepView {
    Done(ReplyView),
    CheckCredentials(Seq<char>, Seq<char>),
}

impl View for Step {
    type V = StepView;

    open spec fn view(&self) -> StepView {
        match self {
            Step::Done(r) => StepView::Done(r@),
            Step::CheckCredentials(u) => StepView::CheckCredentials(u.username@, u.password@),
        }
    }
}

/// Relies on chrono::Utc::now: the time, in whole seconds since the Unix
/// epoch.
#[verifier::external_body]
fn now_seconds() -> (r: i64) {
    chrono::Utc::now().timestamp()
}

impl AuthGate {
    /// The login page at time `t`, and the store after it.
    pub open spec fn login_page_spec(
        &self,
        m: Map<Seq<char>, SessionView>,
        cookie: Option<Seq<char>>,
        query: Option<Seq<char>>,
        t: int,
    ) -> (LoginPageView, Map<Seq<char>, SessionView>) {
        let tok = request_token(cookie, self.cookie_name@);
        let live = live_token(m, tok, t);
        let page = LoginPageView {
            login_route: self.base@ + "/login"@,
            logout_route: self.base@ + "/logout"@,
            admin_route: self.base@ + "/admin"@,
            logged_in: live,
            admin: live && m[tok.unwrap()].admin,
            title: if live {
                "Welcome, "@ + capitalized(m[tok.unwrap()].user) + "!"@
            } else {
                "Log in"@
            },
            msg: page_msg(query),
            status: page_status(query),
        };
        (page, after_lookup(m, tok, t))
    }

    /// The values of the login page: the special routes, whether the request
    /// carries a live session and for whom, and the message that the query
    /// string passes on. An expired session is deleted on the way.
    pub fn login_page(
        &self,
        store: &mut SessionStore,
        cookie: Option<&str>,
        query: Option<&str>,
        now: i64,
    ) -> (r: LoginPage)
        requires
            old(store).wf(),
        ensures
            final(store).wf(),
            final(store).clock() == acting_time(old(store).clock(), now as int),
            (r@, final(store)@) == self.login_page_spec(
                old(store)@,
                header_view(cookie),
                header_view(query),
                acting_time(old(store).clock(), now as int),
            ),
    {
        let t = store.observe_time(now);
        let session = match self.token(cookie) {
            None => None,
            Some(tok) => store.lookup_live(tok.as_str(), t),
        };
        let (logged_in, admin, title) = match session {
            Some(s) => {
                let title = String::from_str("Welcome, ").concat(capitalize(s.user.as_str()).as_str()).concat(
                    "!",
                );
                (true, s.admin, title)
            },
            None => (false, false, String::from_str("Log in")),
        };
        let (msg, status) = match query {
            Some(q) => {
                let msg = match get_query_param(q, "msg") {
                    Some(v) => url_decode(v.as_str()),
                    None => None,
                };
                let status = match get_query_param(q, "status") {
                    Some(v) => Severity::from_name(v.as_str()),
                    None => None,
                };
                (msg, status)
            },
            None => (None, None),
        };
        LoginPage {
            login_route: self.base.clone().concat("/login"),
            logout_route: self.base.clone().concat("/logout"),
            admin_route: self.base.clone().concat("/admin"),
            logged_in,
            admin,
            title,
            msg,
            status,
        }
    }

    /// The first step of a login submission: the credentials to check, or the
    /// answer to a body that cannot be used.
    pub open spec fn login_submit_spec(&self, body: Seq<u8>) -> StepView {
        match credentials_of(body) {
            Ok((u, p)) => StepView::CheckCredentials(u, p),
            Err(FormError::Malformed) => StepView::Done(
                ReplyView::Redirect(
                    notice_location(self.base@, UNREADABLE_FORM@, Severity::Error),
                    None,
                ),
            ),
            Err(FormError::Empty) => StepView::Done(
                ReplyView::Redirect(
                    notice_location(self.base@, MISSING_CREDENTIALS@, Severity::Error),
                    None,
                ),
            ),
        }
    }

    /// Reads a login submission's body: the credentials to check, or a
    /// redirect that reports an unreadable form or an empty field.
    pub fn login_submit(&self, body: &[u8]) -> (r: Step)
        ensures
            r@ == self.login_submit_spec(body@),
    {
        match User::from_form(body) {
            Ok(u) => Step::CheckCredentials(u),
            Err(FormError::Malformed) => Step::Done(self.notice(UNREADABLE_FORM, Severity::Error, None)),
            Err(FormError::Empty) => Step::Done(self.notice(MISSING_CREDENTIALS, Severity::Error, None)),
        }
    }

    /// How a login ends at time `t` once the credentials of `user` have been
    /// checked, when the new session, if one is made, gets `token`; and the
    /// store after it.
    pub open spec fn finish_login_spec(
        &self,
        m: Map<Seq<char>, SessionView>,
        cookie: Option<Seq<char>>,
        user: Seq<char>,
        check: Credentials,
        t: int,
        token: Seq<char>,
    ) -> (ReplyView, Map<Seq<char>, SessionView>) {
        let tok = request_token(cookie, self.cookie_name@);
        let base = self.base@;
        match check {
            Credentials::Unavailable => (
                ReplyView::Redirect(notice_location(base, SOMETHING_WENT_WRONG@, Severity::Error), None),
                m,
            ),
            Credentials::Invalid => (
                ReplyView::Redirect(notice_location(base, WRONG_CREDENTIALS@, Severity::Warning), None),
                m,
            ),
            Credentials::Valid { admin } => if live_token(m, tok, t) {
                (
                    ReplyView::Redirect(
                        notice_location(base, ALREADY_LOGGED_IN@, Severity::Warning),
                        None,
                    ),
                    after_renewal(m, tok, t, self.ttl as int),
                )
            } else {
                let m1 = after_lookup(m, tok, t);
                if has_live_session(m1, user, t) {
                    (
                        ReplyView::Redirect(
                            notice_location(base, ALREADY_LOGGED_IN@, Severity::Warning),
                            None,
                        ),
                        m1,
                    )
                } else if m1.contains_key(token) {
                    (
                        ReplyView::Redirect(
                            notice_location(base, SOMETHING_WENT_WRONG@, Severity::Error),
                            None,
                        ),
                        m1,
                    )
                } else {
                    (
                        ReplyView::Redirect(
                            notice_location(base, LOGGED_IN@, Severity::Success),
                            Some(session_cookie_text(self.cookie_name@, token)),
                        ),
                        m1.insert(
                            token,
                            SessionView { user, token, admin, expires: expiry(t, self.ttl as int) },
                        ),
                    )
                }
            },
        }
    }

    /// Ends a login once the credentials of `username` have been checked. A
    /// request that already carries a live session has it renewed and is told
    /// so; a user who holds a live session elsewhere is refused a second one;
    /// otherwise a session is created under `token` and its cookie is set.
    pub fn finish_login_at(
        &self,
        store: &mut SessionStore,
        cookie: Option<&str>,
        username: &str,
        check: Credentials,
        now: i64,
        token: String,
    ) -> (r: Reply)
        requires
            old(store).wf(),
        ensures
            final(store).wf(),
            final(store).clock() == acting_time(old(store).clock(), now as int),
            (r@, final(store)@) == self.finish_login_spec(
                old(store)@,
                header_view(cookie),
                username@,
                check,
                acting_time(old(store).clock(), now as int),
                token@,
            ),
    {
        let t = store.observe_time(now);
        let admin = match check {
            Credentials::Unavailable => {
                return self.notice(SOMETHING_WENT_WRONG, Severity::Error, None);
            },
            Credentials::Invalid => {
                return self.notice(WRONG_CREDENTIALS, Severity::Warning, None);
            },
            Credentials::Valid { admin } => admin,
        };
        match self.token(cookie) {
            Some(tok) => {
                if store.validate(tok.as_str(), self.ttl, t).is_some() {
                    return self.notice(ALREADY_LOGGED_IN, Severity::Warning, None);
                }
            },
            None => {},
        }
        match store.create_with_token(username, admin, self.ttl, t, token) {
            Ok(s) => {
                let c = session_cookie(self.cookie_name.as_str(), s.token.as_str());
                self.notice(LOGGED_IN, Severity::Success, Some(c))
            },
            Err(CreateError::AlreadyLoggedIn) => self.notice(ALREADY_LOGGED_IN, Severity::Warning, None),
            Err(CreateError::TokenCollision) => self.notice(SOMETHING_WENT_WRONG, Severity::Error, None),
        }
    }

    /// `finish_login_at` at the current time, with a fresh random token.
    pub fn finish_login(
        &self,
        store: &mut SessionStore,
        cookie: Option<&str>,
        username: &str,
        check: Credentials,
    ) -> (r: Reply)
        requires
            old(store).wf(),
        ensures
            final(store).wf(),
            exists|now: i64, token: Seq<char>|
                token.len() == 36 && final(store).clock() == acting_time(
                    old(store).clock(),
                    now as int,
                ) && (
                r@,
                final(store)@,
            ) == #[trigger] self.finish_login_spec(
                    old(store)@,
                    header_view(cookie),
                    username@,
                    check,
                    acting_time(old(store).clock(), now as int),
                    token,
                ),
    {
        let now = now_seconds();
        let token = new_token();
        self.finish_login_at(store, cookie, username, check, now, token)
    }

    /// The answer to `req` at time `t`, and the store after it.
    pub open spec fn handle_spec(&self, m: Map<Seq<char>, SessionView>, req: RequestView, t: int) -> (
        StepView,
        Map<Seq<char>, SessionView>,
    ) {
        match route_of(self.base@, req.method, req.path) {
            Route::LoginPage => {
                let (page, after) = self.login_page_spec(m, req.cookie, req.query, t);
                (StepView::Done(ReplyView::LoginForm(page)), after)
            },
            Route::LoginSubmit => (self.login_submit_spec(req.body), m),
            Route::Logout => {
                let (reply, after) = self.logout_spec(m, req.cookie, t);
                (StepView::Done(reply), after)
            },
            Route::Renew => {
                let (reply, after) = self.renew_spec(m, req.cookie, t);
                (StepView::Done(reply), after)
            },
            Route::Admin => {
                let (reply, after) = self.admin_spec(m, req.cookie, t);
                (StepView::Done(reply), after)
            },
            Route::PassThrough => {
                let (reply, after) = self.pass_through_spec(m, req.cookie, path_and_query(req), t);
                (StepView::Done(reply), after)
            },
        }
    }

    /// Routes `req` at time `now` and answers it; a login submission comes
    /// back as the credentials to check, for `finish_login`.
    pub fn handle(&self, store: &mut SessionStore, req: &Request, now: i64) -> (r: Step)
        requires
            old(store).wf(),
        ensures
            final(store).wf(),
            final(store).clock() == acting_time(old(store).clock(), now as int),
            (r@, final(store)@) == self.handle_spec(
                old(store)@,
                req@,
                acting_time(old(store).clock(), now as int),
            ),
    {
        let cookie = match &req.cookie {
            Some(c) => Some(c.as_str()),
            None => None,
        };
        match self.classify(req.method, req.path.as_str()) {
            Route::LoginPage => {
                let query = match &req.query {
                    Some(q) => Some(q.as_str()),
                    None => None,
                };
                Step::Done(Reply::LoginForm(self.login_page(store, cookie, query, now)))
            },
            Route::LoginSubmit => {
                store.observe_time(now);
                self.login_submit(req.body.as_slice())
            },
            Route::Logout => Step::Done(self.logout(store, cookie, now)),
            Route::Renew => Step::Done(self.renew(store, cookie, now)),
            Route::Admin => Step::Done(self.admin(store, cookie, now)),
            Route::PassThrough => {
                let target = match &req.query {
                    Some(q) => req.path.clone().concat("?").concat(q.as_str()),
                    None => req.path.clone(),
                };
                Step::Done(self.pass_through(store, cookie, target.as_str(), now))
            },
        }
    }

    /// `handle` at the current time.
    pub fn handle_request(&self, store: &mut SessionStore, req: &Request) -> (r: Step)
        requires
            old(store).wf(),
        ensures
            final(store).wf(),
            exists|now: i64|
                final(store).clock() == acting_time(old(store).clock(), now as int) && (
                r@,
                final(store)@,
            ) == #[trigger] self.handle_spec(
                    old(store)@,
                    req@,
                    acting_time(old(store).clock(), now as int),
                ),
    {
        let now = now_seconds();
        self.handle(store, req, now)
    }
}

} // verus!
