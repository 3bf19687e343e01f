use simpleauth::{ConfigEntry, ConfigError, CredentialStore};

fn entry(host: &str, user: &str, pass: &str) -> ConfigEntry {
    ConfigEntry {
        host: Some(host.to_string()),
        username: Some(user.to_string()),
        password: Some(pass.to_string()),
    }
}

fn pair(user: &str, pass: &str) -> Option<(String, String)> {
    Some((user.to_string(), pass.to_string()))
}

#[test]
fn lookup_finds_loaded_hosts() {
    let store = CredentialStore::load(&vec![
        entry("example.club", "admin", "pass123"),
        entry("other.club", "root", "toor"),
    ])
    .unwrap();
    assert_eq!(store.lookup("example.club"), pair("admin", "pass123"));
    assert_eq!(store.lookup("other.club"), pair("root", "toor"));
}

#[test]
fn lookup_is_exact() {
    let store = CredentialStore::load(&vec![entry("example.club", "admin", "pass123")]).unwrap();
    assert_eq!(store.lookup("Example.club"), None);
    assert_eq!(store.lookup("a.example.club"), None);
    assert_eq!(store.lookup("example.club."), None);
    assert_eq!(store.lookup(""), None);
}

#[test]
fn last_entry_for_a_host_wins() {
    let store = CredentialStore::load(&vec![
        entry("example.club", "admin", "old"),
        entry("other.club", "root", "toor"),
        entry("example.club", "admin", "new"),
    ])
    .unwrap();
    assert_eq!(store.lookup("example.club"), pair("admin", "new"));
}

#[test]
fn empty_configuration_gives_empty_table() {
    let store = CredentialStore::load(&vec![]).unwrap();
    assert_eq!(store.lookup("example.club"), None);
}

#[test]
fn incomplete_entry_is_a_config_error() {
    let mut missing_pass = entry("b.club", "u", "p");
    missing_pass.password = None;
    let mut missing_host = entry("c.club", "u", "p");
    missing_host.host = None;
    let mut missing_user = entry("d.club", "u", "p");
    missing_user.username = None;
    let records = vec![entry("a.club", "u", "p"), missing_pass, missing_host];
    assert_eq!(CredentialStore::load(&records).unwrap_err(), ConfigError { entry: 1 });
    assert_eq!(CredentialStore::load(&vec![missing_user]).unwrap_err(), ConfigError { entry: 0 });
}
