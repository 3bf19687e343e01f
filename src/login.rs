//! The interactive login flow: the form that asks for credentials, and the
//! submission that checks them and issues a session cookie.

use vstd::prelude::*;

use crate::auth::{credentials_match, user_validate};
use crate::redirect::{parse_url_host, url_host};
use crate::session::{issue, issued_cookie, CookieView, SessionCookie};
use crate::store::CredentialStore;

verus! {

/// A submitted login form: user name, password and the target to return to.
#[derive(Debug, Clone)]
pub struct AuthUser {
    pub user: String,
    pub pass: String,
    pub url: String,
}

/// What the login page shows: the target to return to, and an error from a
/// failed attempt.
#[derive(Debug, Clone)]
pub struct FormModel {
    pub url: String,
    pub error: Option<String>,
}

/// A request for the login page that cannot be served.
#[derive(Debug, Clone)]
pub struct BadRequest {
    pub message: String,
}

/// A successful login: where to send the browser, and the cookie to set.
#[derive(Debug, Clone)]
pub struct LoginSuccess {
    pub redirect_to: String,
    pub cookie: SessionCookie,
}

/// A failed login, with the form to show again.
#[derive(Debug, Clone)]
pub enum LoginError {
    /// The target to return to is not a valid absolute URI with a host.
    InvalidUrl(FormModel),
    /// The user name and password are not those of the target's host.
    InvalidCredentials(FormModel),
}

pub open spec fn invalid_hostname_message() -> Seq<char> {
    "Invalid Hostname"@
}

pub open spec fn invalid_url_message() -> Seq<char> {
    "Invalid Login URL"@
}

pub open spec fn invalid_login_message() -> Seq<char> {
    "Invalid Login"@
}

/// Whether `form` shows the target `url` again with the error `message`.
pub open spec fn shows_error(form: FormModel, url: Seq<char>, message: Seq<char>) -> bool {
    &&& form.url@ == url
    &&& (form.error matches Some(e) && e@ == message)
}

/// What submitting `user`, `pass` and `url` against `store` gives: refused for
/// a target without a host; otherwise accepted exactly when the credentials are
/// those of the target's host, with a redirect to the target and that host's
/// session cookie.
pub open spec fn login_outcome(
    store: Map<Seq<char>, (Seq<char>, Seq<char>)>,
    user: Seq<char>,
    pass: Seq<char>,
    url: Seq<char>,
    r: Result<LoginSuccess, LoginError>,
) -> bool {
    match url_host(url) {
        Err(_) => r matches Err(LoginError::InvalidUrl(form)) && shows_error(
            form,
            url,
            invalid_url_message(),
        ),
        Ok(host) => if credentials_match(store, host, user, pass) {
            r matches Ok(s) && s.redirect_to@ == url && s.cookie@ == issued_cookie(host, user, pass)
        } else {
            r matches Err(LoginError::InvalidCredentials(form)) && shows_error(
                form,
                url,
                invalid_login_message(),
            )
        },
    }
}

/// The login page for the redirect target `url`, refused where the target is
/// not an absolute URI with a host.
pub fn login(url: &str) -> (r: Result<FormModel, BadRequest>)
    ensures
        r is Ok <==> url_host(url@) is Ok,
        r matches Ok(form) ==> form.url@ == url@ && form.error is None,
        r matches Err(bad) ==> bad.message@ == invalid_hostname_message(),
{
    match parse_url_host(url) {
        Ok(_) => Ok(FormModel { url: url.to_owned(), error: None }),
        Err(_) => Err(BadRequest { message: "Invalid Hostname".to_owned() }),
    }
}

/// Handles a submitted login form. The target is validated again; the user name
/// and password are checked against the credentials of the target's host; on
/// success the browser returns to the target with a session cookie. A failure
/// shows the form again, without the password.
pub fn validate_login(store: &CredentialStore, input: &AuthUser) -> (r: Result<
    LoginSuccess,
    LoginError,
>)
    ensures
        login_outcome(store@, input.user@, input.pass@, input.url@, r),
{
    let host = match parse_url_host(input.url.as_str()) {
        Ok(host) => host,
        Err(_) => {
            let form = FormModel {
                url: input.url.clone(),
                error: Some("Invalid Login URL".to_owned()),
            };
            return Err(LoginError::InvalidUrl(form));
        },
    };
    if user_validate(store, input.user.as_str(), input.pass.as_str(), host.as_str()) {
        let cookie = issue(host.as_str(), input.user.as_str(), input.pass.as_str());
        Ok(LoginSuccess { redirect_to: input.url.clone(), cookie })
    } else {
        let form = FormModel { url: input.url.clone(), error: Some("Invalid Login".to_owned()) };
        Err(LoginError::InvalidCredentials(form))
    }
}

/// Whether two forms show the same target and the same error.
pub open spec fn same_form(a: FormModel, b: FormModel) -> bool {
    &&& a.url@ == b.url@
    &&& a.error is Some <==> b.error is Some
    &&& (a.error matches Some(e) ==> (b.error matches Some(f) && e@ == f@))
}

/// Submitting the same login twice gives the same outcome: the same redirect
/// target and the same cookie, or the same refusal.
pub proof fn lemma_login_repeatable(
    store: Map<Seq<char>, (Seq<char>, Seq<char>)>,
    user: Seq<char>,
    pass: Seq<char>,
    url: Seq<char>,
    first: Result<LoginSuccess, LoginError>,
    second: Result<LoginSuccess, LoginError>,
)
    requires
        login_outcome(store, user, pass, url, first),
        login_outcome(store, user, pass, url, second),
    ensures
        first is Ok <==> second is Ok,
        first matches Ok(a) ==> (second matches Ok(b) && a.redirect_to@ == b.redirect_to@
            && a.cookie@ == b.cookie@),
        first matches Err(LoginError::InvalidUrl(a)) ==> (second matches Err(
            LoginError::InvalidUrl(b),
        ) && same_form(a, b)),
        first matches Err(LoginError::InvalidCredentials(a)) ==> (second matches Err(
            LoginError::InvalidCredentials(b),
        ) && same_form(a, b)),
{
}

} // verus!
