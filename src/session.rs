//! Session cookies issued after an interactive login.
//!
//! The cookie is named after the host that was logged into, so that one host's
//! cookie is never taken for another's, and scoped to the host's parent domain,
//! so that one login covers the sibling subdomains.

use vstd::prelude::*;

use crate::codec::{auth_encode_string, encoded_credential};
use crate::domain::{parent_domain, parent_domain_of};

verus! {

/// The prefix of every session cookie's name.
pub const COOKIE_NAME: &'static str = "simpauth";

/// The cookie's cross-site policy.
#[derive(Debug, Clone, Copy, PartialEq, Eq, Structural)]
pub enum SameSite {
    /// Sent with same-site requests only.
    Strict,
    /// Sent with same-site requests and top-level cross-site navigation.
    Lax,
}

/// A cookie to set on the browser.
#[derive(Debug, Clone)]
pub struct SessionCookie {
    pub name: String,
    pub value: String,
    pub domain: String,
    pub path: String,
    pub secure: bool,
    pub http_only: bool,
    pub same_site: SameSite,
}

/// A cookie's attributes as plain values.
pub struct CookieView {
    pub name: Seq<char>,
    pub value: Seq<char>,
    pub domain: Seq<char>,
    pub path: Seq<char>,
    pub secure: bool,
    pub http_only: bool,
    pub same_site: SameSite,
}

impl View for SessionCookie {
    type V = CookieView;

    open spec fn view(&self) -> CookieView {
        CookieView {
            name: self.name@,
            value: self.value@,
            domain: self.domain@,
            path: self.path@,
            secure: self.secure,
            http_only: self.http_only,
            same_site: self.same_site,
        }
    }
}

/// The name of the cookie that holds the credential for `host`.
pub open spec fn cookie_name_for(host: Seq<char>) -> Seq<char> {
    COOKIE_NAME@ + "_"@ + host
}

/// The cookie issued to a user who logged into `host`.
pub open spec fn issued_cookie(host: Seq<char>, user: Seq<char>, pass: Seq<char>) -> CookieView {
    CookieView {
        name: cookie_name_for(host),
        value: encoded_credential(user, pass),
        domain: parent_domain_of(host),
        path: "/"@,
        secure: true,
        http_only: true,
        same_site: SameSite::Strict,
    }
}

/// The name of the cookie that holds the credential for `host`:
/// `simpauth_<host>`.
pub fn auth_cookie_name(host: &str) -> (r: String)
    ensures
        r@ == cookie_name_for(host@),
{
    let mut name = COOKIE_NAME.to_owned();
    name.append("_");
    name.append(host);
    name
}

/// The session cookie for a user who logged into `host`: named after the host,
/// holding the encoded credential, scoped to the parent domain, on every path,
/// secure, hidden from scripts and kept to same-site requests.
pub fn issue(host: &str, username: &str, password: &str) -> (r: SessionCookie)
    ensures
        r@ == issued_cookie(host@, username@, password@),
{
    SessionCookie {
        name: auth_cookie_name(host),
        value: auth_encode_string(username, password),
        domain: parent_domain(host),
        path: "/".to_owned(),
        secure: true,
        http_only: true,
        same_site: SameSite::Strict,
    }
}

} // verus!
