use simpleauth::parent_domain;

#[test]
fn parent_domain_keeps_last_two_labels() {
    assert_eq!(parent_domain("magic.simple.foo.example.domain"), "example.domain");
    assert_eq!(parent_domain("a.b.example.club"), "example.club");
    assert_eq!(parent_domain("login.example.club"), "example.club");
}

#[test]
fn parent_domain_keeps_short_hosts() {
    assert_eq!(parent_domain("example.club"), "example.club");
    assert_eq!(parent_domain("localhost"), "localhost");
    assert_eq!(parent_domain(""), "");
}

#[test]
fn parent_domain_counts_empty_labels() {
    assert_eq!(parent_domain(".club"), ".club");
    assert_eq!(parent_domain("a..club"), ".club");
    assert_eq!(parent_domain("example.club."), "club.");
}

#[test]
fn parent_domain_does_not_know_public_suffixes() {
    assert_eq!(parent_domain("www.example.co.uk"), "co.uk");
}
