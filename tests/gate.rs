use proxrs::gate::{
    AuthGate, Credentials, Method, Reply, Request, Route, Step, ALREADY_LOGGED_IN, LOGGED_IN,
};
use proxrs::store::SessionStore;

fn gate() -> AuthGate {
    AuthGate::new("/auth", "sid", 60, "https://example.com")
}

fn request(method: Method, path: &str, query: Option<&str>, cookie: Option<&str>, body: &[u8]) -> Request {
    Request {
        method,
        path: path.to_string(),
        query: query.map(|q| q.to_string()),
        cookie: cookie.map(|c| c.to_string()),
        body: body.to_vec(),
    }
}

fn redirect(r: Reply) -> (String, Option<String>) {
    match r {
        Reply::Redirect(d) => (d.location, d.set_cookie),
        _ => panic!("expected a redirect"),
    }
}

fn done(s: Step) -> Reply {
    match s {
        Step::Done(r) => r,
        Step::CheckCredentials(_) => panic!("expected a reply"),
    }
}

fn token(c: char) -> String {
    std::iter::repeat(c).take(36).collect()
}

#[test]
fn routes_are_classified_in_order() {
    let g = gate();
    assert_eq!(g.classify(Method::Get, "/auth/login"), Route::LoginPage);
    assert_eq!(g.classify(Method::Post, "/auth/login"), Route::LoginSubmit);
    assert_eq!(g.classify(Method::Post, "/auth/logout"), Route::Logout);
    assert_eq!(g.classify(Method::Get, "/auth/logout"), Route::PassThrough);
    assert_eq!(g.classify(Method::Get, "/auth/renew"), Route::Renew);
    assert_eq!(g.classify(Method::Get, "/auth/admin"), Route::Admin);
    assert_eq!(g.classify(Method::Post, "/auth/admin"), Route::PassThrough);
    assert_eq!(g.classify(Method::Other, "/auth/login"), Route::PassThrough);
    assert_eq!(g.classify(Method::Get, "/auth/login/"), Route::PassThrough);
    assert_eq!(g.classify(Method::Get, "/"), Route::PassThrough);
}

#[test]
fn login_page_without_cookie_is_the_form() {
    let g = gate();
    let mut store = SessionStore::new();
    let req = request(Method::Get, "/auth/login", None, None, b"");
    match done(g.handle(&mut store, &req, 10)) {
        Reply::LoginForm(p) => {
            assert!(!p.logged_in);
            assert!(!p.admin);
            assert_eq!(p.title, "Log in");
            assert_eq!(p.login_route, "/auth/login");
            assert_eq!(p.logout_route, "/auth/logout");
            assert_eq!(p.admin_route, "/auth/admin");
            assert_eq!(p.msg, None);
            assert_eq!(p.status, None);
        }
        _ => panic!("expected the login form"),
    }
}

#[test]
fn login_page_shows_message_and_session() {
    let g = gate();
    let mut store = SessionStore::new();
    store.create_with_token("stan", true, 60, 0, token('s')).unwrap();
    let cookie = format!("sid={}", token('s'));
    let req = request(
        Method::Get,
        "/auth/login",
        Some("msg=You%20are%20not%20logged%20in.&status=warning"),
        Some(&cookie),
        b"",
    );
    match done(g.handle(&mut store, &req, 10)) {
        Reply::LoginForm(p) => {
            assert!(p.logged_in);
            assert!(p.admin);
            assert_eq!(p.title, "Welcome, Stan!");
            assert_eq!(p.msg, Some("You are not logged in.".to_string()));
            assert_eq!(p.status, Some(proxrs::query::Severity::Warning));
        }
        _ => panic!("expected the login form"),
    }
}

#[test]
fn login_with_empty_field_is_an_error() {
    let g = gate();
    let mut store = SessionStore::new();
    for body in [&b"username=&password=pw"[..], &b"username=ann&password="[..]] {
        let req = request(Method::Post, "/auth/login", None, None, body);
        let (location, cookie) = redirect(done(g.handle(&mut store, &req, 10)));
        assert_eq!(
            location,
            "/auth/login?msg=Please%20enter%20both%20your%20username%20and%20your%20password.&status=error"
        );
        assert!(location.ends_with("status=error"));
        assert_eq!(cookie, None);
    }
}

#[test]
fn login_with_unreadable_body_is_an_error() {
    let g = gate();
    let mut store = SessionStore::new();
    let req = request(Method::Post, "/auth/login", None, None, b"name=ann");
    let (location, _) = redirect(done(g.handle(&mut store, &req, 10)));
    assert!(location.starts_with("/auth/login?msg=Oops%21%20We%20couldn"));
    assert!(location.ends_with("&status=error"));
}

#[test]
fn login_with_valid_credentials_sets_cookie() {
    let g = gate();
    let mut store = SessionStore::new();
    let req = request(Method::Post, "/auth/login", None, None, b"username=ann&password=pw");
    let user = match g.handle(&mut store, &req, 10) {
        Step::CheckCredentials(u) => u,
        Step::Done(_) => panic!("expected credentials to check"),
    };
    assert_eq!(user.username, "ann");
    assert_eq!(user.password, "pw");
    let r = g.finish_login_at(
        &mut store,
        None,
        &user.username,
        Credentials::Valid { admin: false },
        10,
        token('t'),
    );
    let (location, cookie) = redirect(r);
    assert_eq!(location, "/auth/login?msg=You%20have%20successfully%20logged%20in.&status=success");
    assert_eq!(cookie, Some(format!("sid={}; HttpOnly; Path=/", token('t'))));
    let s = store.get_token(&token('t')).unwrap();
    assert_eq!(s.user, "ann");
    assert_eq!(s.expires, 70);
    assert!(LOGGED_IN.starts_with("You have"));
}

#[test]
fn login_with_random_token() {
    let g = gate();
    let mut store = SessionStore::new();
    let r = g.finish_login(&mut store, None, "ann", Credentials::Valid { admin: true });
    let (location, cookie) = redirect(r);
    assert!(location.ends_with("status=success"));
    let cookie = cookie.unwrap();
    let tok = &cookie["sid=".len().."sid=".len() + 36];
    let s = store.get_token(tok).unwrap();
    assert!(s.admin);
}

#[test]
fn login_refused_with_bad_or_unavailable_credentials() {
    let g = gate();
    let mut store = SessionStore::new();
    let (location, cookie) =
        redirect(g.finish_login_at(&mut store, None, "ann", Credentials::Invalid, 10, token('t')));
    assert!(location.ends_with("&status=warning"));
    assert!(location.starts_with("/auth/login?msg=Sorry%2C%20either"));
    assert_eq!(cookie, None);
    let (location, _) =
        redirect(g.finish_login_at(&mut store, None, "ann", Credentials::Unavailable, 10, token('t')));
    assert!(location.ends_with("&status=error"));
    assert!(store.get_token(&token('t')).is_none());
}

#[test]
fn second_login_is_refused() {
    let g = gate();
    let mut store = SessionStore::new();
    store.create_with_token("ann", false, 60, 0, token('a')).unwrap();
    let (location, cookie) = redirect(g.finish_login_at(
        &mut store,
        None,
        "ann",
        Credentials::Valid { admin: false },
        10,
        token('b'),
    ));
    assert_eq!(location, "/auth/login?msg=You%20are%20already%20logged%20in.&status=warning");
    assert_eq!(cookie, None);
    assert!(store.get_token(&token('b')).is_none());
    // Logged in on this very request: renewed and told so.
    let c = format!("sid={}", token('a'));
    let (location, _) = redirect(g.finish_login_at(
        &mut store,
        Some(&c),
        "ann",
        Credentials::Valid { admin: false },
        20,
        token('b'),
    ));
    assert!(location.contains("already"));
    assert_eq!(store.get_token(&token('a')).unwrap().expires, 80);
    assert!(ALREADY_LOGGED_IN.contains("already"));
}

#[test]
fn pass_through_with_live_cookie_is_forwarded() {
    let g = gate();
    let mut store = SessionStore::new();
    store.create_with_token("ann", false, 60, 0, token('a')).unwrap();
    let c = format!("lang=en; sid={}", token('a'));
    let req = request(Method::Get, "/app/page", Some("x=1"), Some(&c), b"");
    match done(g.handle(&mut store, &req, 30)) {
        Reply::Forward(f) => {
            assert_eq!(f.uri, "https://example.com/app/page?x=1");
            assert_eq!(f.host, "example.com");
        }
        _ => panic!("expected a forward"),
    }
    assert_eq!(store.get_token(&token('a')).unwrap().expires, 90);
}

#[test]
fn pass_through_with_expired_cookie_is_redirected_and_evicted() {
    let g = gate();
    let mut store = SessionStore::new();
    store.create_with_token("ann", false, 60, 0, token('a')).unwrap();
    let c = format!("sid={}", token('a'));
    let req = request(Method::Get, "/app", None, Some(&c), b"");
    let (location, cookie) = redirect(done(g.handle(&mut store, &req, 61)));
    assert_eq!(location, "/auth/login");
    assert_eq!(cookie, None);
    assert!(store.get_token(&token('a')).is_none());
}

#[test]
fn pass_through_without_cookie_is_redirected() {
    let g = gate();
    let mut store = SessionStore::new();
    let req = request(Method::Get, "/app", None, None, b"");
    let (location, _) = redirect(done(g.handle(&mut store, &req, 1)));
    assert_eq!(location, "/auth/login");
    let req = request(Method::Get, "/app", None, Some("sid=unknown"), b"");
    let (location, _) = redirect(done(g.handle(&mut store, &req, 1)));
    assert_eq!(location, "/auth/login");
}

#[test]
fn logout_with_live_cookie_clears_and_removes() {
    let g = gate();
    let mut store = SessionStore::new();
    store.create_with_token("ann", false, 60, 0, token('a')).unwrap();
    let c = format!("sid={}", token('a'));
    let req = request(Method::Post, "/auth/logout", None, Some(&c), b"");
    let (location, cookie) = redirect(done(g.handle(&mut store, &req, 5)));
    assert_eq!(location, "/auth/login?msg=You%20have%20been%20logged%20out.&status=success");
    assert_eq!(
        cookie,
        Some("sid=; HttpOnly; Path=/; Expires=Thu, 01 Jan 1970 00:00:00 GMT".to_string())
    );
    assert!(store.get_token(&token('a')).is_none());
}

#[test]
fn logout_without_session_warns_and_clears() {
    let g = gate();
    let mut store = SessionStore::new();
    let req = request(Method::Post, "/auth/logout", None, None, b"");
    let (location, cookie) = redirect(done(g.handle(&mut store, &req, 5)));
    assert_eq!(location, "/auth/login?msg=You%20are%20not%20logged%20in.&status=warning");
    assert!(cookie.unwrap().starts_with("sid=;"));
}

#[test]
fn renew_route_renews_live_session() {
    let g = gate();
    let mut store = SessionStore::new();
    store.create_with_token("ann", false, 60, 0, token('a')).unwrap();
    let c = format!("sid={}", token('a'));
    let req = request(Method::Get, "/auth/renew", None, Some(&c), b"");
    let (location, cookie) = redirect(done(g.handle(&mut store, &req, 50)));
    assert!(location.ends_with("status=success"));
    assert_eq!(cookie, Some(format!("sid={}; HttpOnly; Path=/", token('a'))));
    assert_eq!(store.get_token(&token('a')).unwrap().expires, 110);
    let req = request(Method::Get, "/auth/renew", None, None, b"");
    let (location, _) = redirect(done(g.handle(&mut store, &req, 50)));
    assert!(location.ends_with("status=warning"));
}

#[test]
fn admin_route_needs_admin_session() {
    let g = gate();
    let mut store = SessionStore::new();
    store.create_with_token("root", true, 60, 0, token('r')).unwrap();
    store.create_with_token("ann", false, 60, 0, token('a')).unwrap();
    let c = format!("sid={}", token('r'));
    let req = request(Method::Get, "/auth/admin", None, Some(&c), b"");
    assert!(matches!(done(g.handle(&mut store, &req, 10)), Reply::AdminPage));
    assert_eq!(store.get_token(&token('r')).unwrap().expires, 70);
    let c = format!("sid={}", token('a'));
    let req = request(Method::Get, "/auth/admin", None, Some(&c), b"");
    let (location, _) = redirect(done(g.handle(&mut store, &req, 10)));
    assert_eq!(location, "/auth/login");
    assert_eq!(store.get_token(&token('a')).unwrap().expires, 60);
}

#[test]
fn handle_request_uses_the_clock() {
    let g = gate();
    let mut store = SessionStore::new();
    let req = request(Method::Get, "/auth/login", None, None, b"");
    assert!(matches!(done(g.handle_request(&mut store, &req)), Reply::LoginForm(_)));
}
