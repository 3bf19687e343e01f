//! The authentication decision for a proxied request.
//!
//! A request presents its credential in the `Authorization` header or, failing
//! that, in the session cookie named after its host. It is authorised when the
//! credential decodes to exactly the user name and password stored for the
//! host.

use vstd::prelude::*;

use crate::codec::{auth_decode_string, decoded_credential};
use crate::store::CredentialStore;

verus! {

/// A request found to be authorised, with the credential string it presented.
#[derive(Debug, Clone)]
pub struct Auth {
    pub credential: String,
}

/// Why a request is not authorised.
#[derive(Debug, Clone, Copy, PartialEq, Eq, Structural)]
pub enum AuthError {
    /// A credential was presented and does not match.
    Invalid,
    /// No host or no credential was presented.
    Missing,
}

/// The body of every refusal; it does not say what was wrong.
pub open spec fn unauthorized_body() -> Seq<char> {
    "Unauthorized"@
}

/// Whether `user` and `pass` are exactly what `store` holds for `host`.
pub open spec fn credentials_match(
    store: Map<Seq<char>, (Seq<char>, Seq<char>)>,
    host: Seq<char>,
    user: Seq<char>,
    pass: Seq<char>,
) -> bool {
    store.contains_key(host) && store[host] == (user, pass)
}

/// Whether the authorisation string `input` is accepted for `host`.
pub open spec fn credential_accepted(
    store: Map<Seq<char>, (Seq<char>, Seq<char>)>,
    host: Seq<char>,
    input: Seq<char>,
) -> bool {
    match decoded_credential(input) {
        Ok(c) => credentials_match(store, host, c.0, c.1),
        Err(_) => false,
    }
}

/// The credential string of a request: the `Authorization` header if there is
/// one, otherwise the host's session cookie; nothing without a host.
pub open spec fn presented_credential(
    host: Option<Seq<char>>,
    authorization: Option<Seq<char>>,
    cookie: Option<Seq<char>>,
) -> Option<Seq<char>> {
    match host {
        None => None,
        Some(_) => match authorization {
            Some(a) => Some(a),
            None => cookie,
        },
    }
}

pub open spec fn str_view(s: Option<&str>) -> Option<Seq<char>> {
    match s {
        Some(s) => Some(s@),
        None => None,
    }
}

pub open spec fn string_view(s: Option<String>) -> Option<Seq<char>> {
    match s {
        Some(s) => Some(s@),
        None => None,
    }
}

/// The decision for a request to `host` that presents `credential`.
pub open spec fn auth_decision(
    store: Map<Seq<char>, (Seq<char>, Seq<char>)>,
    host: Option<Seq<char>>,
    credential: Option<Seq<char>>,
) -> Result<Seq<char>, AuthError> {
    match (host, credential) {
        (Some(h), Some(c)) => if credential_accepted(store, h, c) {
            Ok(c)
        } else {
            Err(AuthError::Invalid)
        },
        _ => Err(AuthError::Missing),
    }
}

/// Picks the credential string that a request presents: the `Authorization`
/// header if present, otherwise the cookie named after the host (see
/// `auth_cookie_name`); `None` where the request names no host.
pub fn auth_from_request(
    host: Option<&str>,
    authorization: Option<&str>,
    cookie: Option<&str>,
) -> (r: Option<String>)
    ensures
        string_view(r) == presented_credential(
            str_view(host),
            str_view(authorization),
            str_view(cookie),
        ),
{
    if host.is_none() {
        return None;
    }
    match authorization {
        Some(a) => Some(a.to_owned()),
        None => match cookie {
            Some(c) => Some(c.to_owned()),
            None => None,
        },
    }
}

/// Whether `user` and `pass` are exactly the credentials stored for `host`.
pub fn user_validate(store: &CredentialStore, user: &str, pass: &str, host: &str) -> (r: bool)
    ensures
        r == credentials_match(store@, host@, user@, pass@),
{
    match store.lookup(host) {
        Some((stored_user, stored_pass)) => {
            stored_user == user.to_owned() && stored_pass == pass.to_owned()
        },
        None => false,
    }
}

/// Whether the authorisation string `input` is accepted for `host`: it must
/// decode as `Basic` credentials equal to those stored for the host.
pub fn auth_validate(store: &CredentialStore, host: &str, input: &str) -> (r: bool)
    ensures
        r == credential_accepted(store@, host@, input@),
{
    match auth_decode_string(input) {
        Ok(basic) => user_validate(store, basic.username.as_str(), basic.password.as_str(), host),
        Err(_) => false,
    }
}

impl Auth {
    /// Decides a request from its host, its `Authorization` header and the
    /// session cookie named after its host. Without a host or a credential the
    /// request is `Missing`; with a credential that is not accepted, `Invalid`.
    pub fn from_request(
        store: &CredentialStore,
        host: Option<&str>,
        authorization: Option<&str>,
        cookie: Option<&str>,
    ) -> (r: Result<Auth, AuthError>)
        ensures
            match auth_decision(
                store@,
                str_view(host),
                presented_credential(str_view(host), str_view(authorization), str_view(cookie)),
            ) {
                Ok(c) => r matches Ok(auth) && auth.credential@ == c,
                Err(e) => r matches Err(f) && f == e,
            },
    {
        let credential = auth_from_request(host, authorization, cookie);
        match (host, credential) {
            (Some(h), Some(c)) => {
                if auth_validate(store, h, c.as_str()) {
                    Ok(Auth { credential: c })
                } else {
                    Err(AuthError::Invalid)
                }
            },
            _ => Err(AuthError::Missing),
        }
    }
}

/// The body of the response to a request that is not authorised.
pub fn unauthorized() -> (r: &'static str)
    ensures
        r@ == unauthorized_body(),
{
    "Unauthorized"
}

} // verus!
