use vstd::prelude::*;
use vstd::string::*;

verus! {

/// The settings that the proxy is configured with, each read from an
/// environment variable of its own.
#[derive(Clone, Copy, Debug, PartialEq, Eq, Hash, Structural)]
pub enum ConfigOptions {
    SessionExpireTime,
    SpecialRoute,
    CookieName,
    StaticDir,
    DbFile,
    Port,
    Ip,
    Upstream,
}

/// The name under which a setting is read.
pub open spec fn option_name(o: ConfigOptions) -> Seq<char> {
    match o {
        ConfigOptions::SessionExpireTime => "SESSION_EXPIRE_TIME"@,
        ConfigOptions::SpecialRoute => "SPECIAL_ROUTE"@,
        ConfigOptions::CookieName => "COOKIE_NAME"@,
        ConfigOptions::StaticDir => "STATIC_DIR"@,
        ConfigOptions::DbFile => "DB_FILE"@,
        ConfigOptions::Port => "PORT"@,
        ConfigOptions::Ip => "IP"@,
        ConfigOptions::Upstream => "UPSTREAM"@,
    }
}

impl ConfigOptions {
    /// The name under which the setting is read.
    pub fn to_string(&self) -> (r: String)
        ensures
            r@ == option_name(*self),
    {
        let name = match self {
            ConfigOptions::SessionExpireTime => "SESSION_EXPIRE_TIME",
            ConfigOptions::SpecialRoute => "SPECIAL_ROUTE",
            ConfigOptions::CookieName => "COOKIE_NAME",
            ConfigOptions::StaticDir => "STATIC_DIR",
            ConfigOptions::DbFile => "DB_FILE",
            ConfigOptions::Port => "PORT",
            ConfigOptions::Ip => "IP",
            ConfigOptions::Upstream => "UPSTREAM",
        };
        String::from_str(name)
    }
}

} // verus!
