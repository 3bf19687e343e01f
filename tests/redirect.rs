use simpleauth::{parse_url_host, UrlError};

#[test]
fn absolute_url_gives_its_host() {
    assert_eq!(parse_url_host("https://login.example.club/path"), Ok("login.example.club".to_string()));
    assert_eq!(parse_url_host("https://site.example.club:8443/a?b=c"), Ok("site.example.club".to_string()));
    assert_eq!(parse_url_host("http://user:pw@example.club/"), Ok("example.club".to_string()));
}

#[test]
fn relative_url_is_refused() {
    let r = parse_url_host("/relative/path");
    assert!(r == Err(UrlError::InvalidUrl) || r == Err(UrlError::MissingAuthority));
    assert!(parse_url_host("").is_err());
}

#[test]
fn url_without_authority_is_refused() {
    assert_eq!(parse_url_host("file:/web/home"), Err(UrlError::MissingAuthority));
}

#[test]
fn malformed_url_is_refused() {
    assert_eq!(parse_url_host(":no-scheme"), Err(UrlError::InvalidUrl));
}

#[test]
fn empty_host_is_refused() {
    assert_eq!(parse_url_host("https:///x"), Err(UrlError::MissingAuthority));
    assert_eq!(parse_url_host("https://user@/x"), Err(UrlError::MissingAuthority));
}
