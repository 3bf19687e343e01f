use simpleauth::{
    auth_encode_string, issue, login, validate_login, AuthUser, ConfigEntry, CredentialStore,
    LoginError, SameSite,
};

fn store() -> CredentialStore {
    CredentialStore::load(&vec![
        ConfigEntry {
            host: Some("site.example.club".to_string()),
            username: Some("admin".to_string()),
            password: Some("pass123".to_string()),
        },
        ConfigEntry {
            host: Some("login.example.club".to_string()),
            username: Some("admin".to_string()),
            password: Some("pass123".to_string()),
        },
    ])
    .unwrap()
}

fn form(user: &str, pass: &str, url: &str) -> AuthUser {
    AuthUser { user: user.to_string(), pass: pass.to_string(), url: url.to_string() }
}

#[test]
fn issued_cookie_is_scoped_to_parent_domain() {
    let cookie = issue("a.b.example.club", "admin", "pass123");
    assert_eq!(cookie.domain, "example.club");
    assert_eq!(cookie.value, auth_encode_string("admin", "pass123"));
    assert_eq!(cookie.name, "simpauth_a.b.example.club");
    assert_eq!(cookie.path, "/");
    assert!(cookie.secure);
    assert!(cookie.http_only);
    assert_eq!(cookie.same_site, SameSite::Strict);
}

#[test]
fn login_post_redirects_with_cookie() {
    let url = "https://site.example.club/dashboard";
    let ok = validate_login(&store(), &form("admin", "pass123", url)).unwrap();
    assert_eq!(ok.redirect_to, url);
    assert_eq!(ok.cookie.domain, "example.club");
    assert_eq!(ok.cookie.name, "simpauth_site.example.club");
    assert_eq!(ok.cookie.value, "Basic YWRtaW46cGFzczEyMw==");
}

#[test]
fn repeated_login_gives_same_result() {
    let input = form("admin", "pass123", "https://login.example.club/path");
    let first = validate_login(&store(), &input).unwrap();
    let second = validate_login(&store(), &input).unwrap();
    assert_eq!(first.redirect_to, second.redirect_to);
    assert_eq!(first.cookie.value, second.cookie.value);
    assert_eq!(first.cookie.name, second.cookie.name);
    assert_eq!(first.cookie.domain, second.cookie.domain);
}

#[test]
fn wrong_password_shows_form_again() {
    let url = "https://site.example.club/dashboard";
    match validate_login(&store(), &form("admin", "nope", url)) {
        Err(LoginError::InvalidCredentials(model)) => {
            assert_eq!(model.url, url);
            assert_eq!(model.error.as_deref(), Some("Invalid Login"));
        }
        other => panic!("unexpected outcome: {:?}", other),
    }
}

#[test]
fn unknown_host_login_fails() {
    let url = "https://elsewhere.club/";
    assert!(matches!(
        validate_login(&store(), &form("admin", "pass123", url)),
        Err(LoginError::InvalidCredentials(_))
    ));
}

#[test]
fn invalid_target_shows_form_again() {
    match validate_login(&store(), &form("admin", "pass123", "/relative/path")) {
        Err(LoginError::InvalidUrl(model)) => {
            assert_eq!(model.url, "/relative/path");
            assert_eq!(model.error.as_deref(), Some("Invalid Login URL"));
        }
        other => panic!("unexpected outcome: {:?}", other),
    }
}

#[test]
fn login_page_needs_valid_target() {
    let page = login("https://site.example.club/dashboard").unwrap();
    assert_eq!(page.url, "https://site.example.club/dashboard");
    assert!(page.error.is_none());
    let bad = login("/relative/path").unwrap_err();
    assert_eq!(bad.message, "Invalid Hostname");
}

#[test]
fn empty_host_target_is_refused() {
    assert_eq!(login("https:///x").unwrap_err().message, "Invalid Hostname");
    assert!(matches!(
        validate_login(&store(), &form("admin", "pass123", "https:///x")),
        Err(LoginError::InvalidUrl(_))
    ));
}
