use proxrs::config::ConfigOptions;
use proxrs::cookie::{cleared_cookie, session_cookie, session_token};
use proxrs::form::{FormError, User};
use proxrs::gate::capitalize;
use proxrs::proxy::Proxy;
use proxrs::query::{get_query_param, Severity};

#[test]
fn cookie_token_found_among_others() {
    let h = "theme=dark; sid=abc123; lang=en";
    assert_eq!(session_token(h, "sid"), Some("abc123".to_string()));
    assert_eq!(session_token(h, "theme"), Some("dark".to_string()));
    assert_eq!(session_token(h, "lang"), Some("en".to_string()));
}

#[test]
fn cookie_token_first_match_and_split_on_first_equals() {
    assert_eq!(session_token("sid=a=b; sid=c", "sid"), Some("a=b".to_string()));
    assert_eq!(session_token("  sid=tok  ", "sid"), Some("tok".to_string()));
    assert_eq!(session_token("\tsid=tok;", "sid"), Some("tok".to_string()));
}

#[test]
fn cookie_token_absent_or_malformed() {
    assert_eq!(session_token("", "sid"), None);
    assert_eq!(session_token("sid", "sid"), None);
    assert_eq!(session_token("sidx=1; xsid=2", "sid"), None);
    assert_eq!(session_token(";;;", "sid"), None);
    assert_eq!(session_token("garbage; sid=ok", "sid"), Some("ok".to_string()));
    assert_eq!(session_token("sid=", "sid"), Some(String::new()));
}

#[test]
fn cookie_strings() {
    assert_eq!(session_cookie("sid", "tok"), "sid=tok; HttpOnly; Path=/");
    assert_eq!(
        cleared_cookie("sid"),
        "sid=; HttpOnly; Path=/; Expires=Thu, 01 Jan 1970 00:00:00 GMT"
    );
}

#[test]
fn query_param_values() {
    let q = "msg=Hello%20there&status=success";
    assert_eq!(get_query_param(q, "msg"), Some("Hello%20there".to_string()));
    assert_eq!(get_query_param(q, "status"), Some("success".to_string()));
    assert_eq!(get_query_param(q, "other"), None);
    assert_eq!(get_query_param("msg=&status=error", "msg"), None);
    assert_eq!(get_query_param("xmsg=1&msg=2", "msg"), Some("2".to_string()));
    assert_eq!(get_query_param("", "msg"), None);
}

#[test]
fn severity_names() {
    assert_eq!(Severity::Success.as_str(), "success");
    assert_eq!(Severity::Warning.as_str(), "warning");
    assert_eq!(Severity::Error.as_str(), "error");
    assert_eq!(Severity::from_name("warning"), Some(Severity::Warning));
    assert_eq!(Severity::from_name("fatal"), None);
}

#[test]
fn proxy_target_and_host() {
    let p = Proxy::new("https://example.com");
    assert_eq!(p.target_uri("/a/b?c=d"), "https://example.com/a/b?c=d");
    assert_eq!(p.host(), "example.com");
    assert_eq!(Proxy::new("http://10.0.0.1:8080").host(), "10.0.0.1:8080");
    assert_eq!(Proxy::new("https://example.com/base").host(), "example.com");
    assert_eq!(Proxy::new("example.org").host(), "example.org");
}

#[test]
fn login_form_is_read() {
    let u = User::from_form(b"username=ann&password=s%20cret&remember=1").unwrap();
    assert_eq!(u.username, "ann");
    assert_eq!(u.password, "s cret");
    let u = User::from_form(b"password=p+w&username=bo").unwrap();
    assert_eq!(u.username, "bo");
    assert_eq!(u.password, "p w");
}

#[test]
fn login_form_errors() {
    assert!(matches!(User::from_form(b"username=ann"), Err(FormError::Malformed)));
    assert!(matches!(
        User::from_form(b"username=a&username=b&password=c"),
        Err(FormError::Malformed)
    ));
    assert!(matches!(User::from_form(b"username=&password=x"), Err(FormError::Empty)));
    assert!(matches!(User::from_form(b"username=x&password="), Err(FormError::Empty)));
    assert!(matches!(User::from_form(b""), Err(FormError::Malformed)));
}

#[test]
fn password_digest_is_hex_sha256() {
    let u = User { username: "admin".to_string(), password: "admin".to_string() };
    assert_eq!(
        u.password_digest(),
        "8c6976e5b5410415bde908bd4dee15dfb167a9c873fc4bb8a81f6f2ab448a918"
    );
    let e = User { username: "x".to_string(), password: "abc".to_string() };
    assert_eq!(
        e.password_digest(),
        "ba7816bf8f01cfea414140de5dae2223b00361a396177a9cb410ff61f20015ad"
    );
}

#[test]
fn capitalize_first_letter() {
    assert_eq!(capitalize("stan"), "Stan");
    assert_eq!(capitalize("Ann"), "Ann");
    assert_eq!(capitalize("ßx"), "SSx");
    assert_eq!(capitalize(""), "");
}

#[test]
fn config_option_names() {
    assert_eq!(ConfigOptions::SessionExpireTime.to_string(), "SESSION_EXPIRE_TIME");
    assert_eq!(ConfigOptions::SpecialRoute.to_string(), "SPECIAL_ROUTE");
    assert_eq!(ConfigOptions::CookieName.to_string(), "COOKIE_NAME");
    assert_eq!(ConfigOptions::StaticDir.to_string(), "STATIC_DIR");
    assert_eq!(ConfigOptions::DbFile.to_string(), "DB_FILE");
    assert_eq!(ConfigOptions::Port.to_string(), "PORT");
    assert_eq!(ConfigOptions::Ip.to_string(), "IP");
    assert_eq!(ConfigOptions::Upstream.to_string(), "UPSTREAM");
}
