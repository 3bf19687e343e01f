//! An authentication gateway for a reverse proxy: decides from a request's
//! host and presented credential whether the caller is authorised, and runs the
//! interactive login flow that issues a domain-scoped session cookie.

pub mod text;

pub mod auth;
pub mod codec;
pub mod config;
pub mod domain;
pub mod login;
pub mod redirect;
pub mod session;
pub mod store;

pub use auth::{auth_from_request, auth_validate, unauthorized, user_validate, Auth, AuthError};
pub use codec::{auth_decode_string, auth_encode_string, basic_from_str, Basic, CredentialError};
pub use config::Config;
pub use domain::parent_domain;
pub use login::{login, validate_login, AuthUser, BadRequest, FormModel, LoginError, LoginSuccess};
pub use redirect::{parse_url_host, UrlError};
pub use session::{auth_cookie_name, issue, SameSite, SessionCookie, COOKIE_NAME};
pub use store::{ConfigEntry, ConfigError, CredentialEntry, CredentialStore};
