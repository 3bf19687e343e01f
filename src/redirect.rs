//! Validation of caller-supplied redirect targets.
//!
//! A redirect target must be an absolute URI with an authority; its host is
//! what the login flow checks credentials against and scopes cookies to.

use vstd::prelude::*;

verus! {

/// What parsing `url` as an absolute URI gives: `None` where it is not one,
/// otherwise the host of its authority, if it has an authority.
pub uninterp spec fn absolute_uri_host(url: Seq<char>) -> Option<Option<Seq<char>>>;

pub open spec fn parsed_host_view(r: Option<Option<String>>) -> Option<Option<Seq<char>>> {
    match r {
        None => None,
        Some(None) => Some(None),
        Some(Some(host)) => Some(Some(host@)),
    }
}

/// Relies on `rocket::http::uri::Absolute::parse`, which fails where `url` is
/// not a valid absolute URI, and on `Absolute::authority` and
/// `Authority::host`, which read the host of a parsed URI's authority.
#[verifier::external_body]
fn parse_absolute_uri(url: &str) -> (r: Option<Option<String>>)
    ensures
        parsed_host_view(r) == absolute_uri_host(url@),
{
    match rocket::http::uri::Absolute::parse(url) {
        Ok(uri) => Some(uri.authority().map(|authority| authority.host().to_owned())),
        Err(_) => None,
    }
}

/// Why a redirect target was refused.
#[derive(Debug, Clone, Copy, PartialEq, Eq, Structural)]
pub enum UrlError {
    /// The target is not an absolute URI.
    InvalidUrl,
    /// The target has no authority, or an authority with an empty host.
    MissingAuthority,
}

/// The host of a redirect target, or why the target is refused. An authority
/// with an empty host, as in `https:///path`, counts as no authority.
pub open spec fn url_host(url: Seq<char>) -> Result<Seq<char>, UrlError> {
    match absolute_uri_host(url) {
        None => Err(UrlError::InvalidUrl),
        Some(None) => Err(UrlError::MissingAuthority),
        Some(Some(host)) => if host.len() == 0 {
            Err(UrlError::MissingAuthority)
        } else {
            Ok(host)
        },
    }
}

pub open spec fn host_result_view(r: Result<String, UrlError>) -> Result<Seq<char>, UrlError> {
    match r {
        Ok(host) => Ok(host@),
        Err(e) => Err(e),
    }
}

/// Validates a redirect target and extracts its host. Relative references and
/// URIs without an authority or with an empty host are refused.
pub fn parse_url_host(url: &str) -> (r: Result<String, UrlError>)
    ensures
        host_result_view(r) == url_host(url@),
{
    match parse_absolute_uri(url) {
        None => Err(UrlError::InvalidUrl),
        Some(None) => Err(UrlError::MissingAuthority),
        Some(Some(host)) => {
            if host.as_str().is_empty() {
                Err(UrlError::MissingAuthority)
            } else {
                Ok(host)
            }
        },
    }
}

} // verus!
