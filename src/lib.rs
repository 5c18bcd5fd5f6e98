//! A session-gated reverse proxy: the session store, the authentication gate
//! that decides what each request gets, and the helpers they share.

pub mod config;
pub mod cookie;
pub mod form;
pub mod gate;
pub mod proxy;
pub mod query;
pub mod session;
pub mod store;
pub mod text;

pub use config::ConfigOptions;
pub use form::User;
pub use gate::{AuthGate, Credentials, Method, Reply, Request, Route, Step};
pub use proxy::Proxy;
pub use session::Session;
pub use store::{CreateError, SessionStore};
