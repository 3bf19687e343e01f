use simpleauth::{auth_decode_string, auth_encode_string, basic_from_str, CredentialError};

fn decode_pair(input: &str) -> Result<(String, String), CredentialError> {
    auth_decode_string(input).map(|b| (b.username, b.password))
}

#[test]
fn encode_gives_basic_with_url_safe_base64() {
    assert_eq!(auth_encode_string("admin", "pass123"), "Basic YWRtaW46cGFzczEyMw==");
}

#[test]
fn encode_uses_url_safe_alphabet() {
    // "?:>" encodes to "Pzo-" in the URL-safe alphabet and "Pzo+" in the standard one.
    let encoded = auth_encode_string("?", ">");
    assert_eq!(encoded, "Basic Pzo-");
    assert_eq!(decode_pair(&encoded), Ok(("?".to_string(), ">".to_string())));
}

#[test]
fn decode_inverts_encode() {
    let cases = [("admin", "pass123"), ("user", ""), ("", "secret"), ("名前", "pässwörd"), ("a b", "c d")];
    for (user, pass) in cases {
        let encoded = auth_encode_string(user, pass);
        assert_eq!(decode_pair(&encoded), Ok((user.to_string(), pass.to_string())));
    }
}

#[test]
fn decode_splits_at_first_colon() {
    let encoded = auth_encode_string("admin", "pa:ss:123");
    assert_eq!(decode_pair(&encoded), Ok(("admin".to_string(), "pa:ss:123".to_string())));
    let encoded = auth_encode_string("ad:min", "pass");
    assert_eq!(decode_pair(&encoded), Ok(("ad".to_string(), "min:pass".to_string())));
}

#[test]
fn decode_keeps_empty_password() {
    // "admin:" in base64
    assert_eq!(decode_pair("Basic YWRtaW46"), Ok(("admin".to_string(), String::new())));
}

#[test]
fn decode_rejects_other_scheme() {
    assert_eq!(decode_pair("Bearer YWRtaW46cGFzczEyMw=="), Err(CredentialError::MalformedScheme));
    assert_eq!(decode_pair("basic YWRtaW46cGFzczEyMw=="), Err(CredentialError::MalformedScheme));
    assert_eq!(decode_pair(""), Err(CredentialError::MalformedScheme));
    assert_eq!(decode_pair("BasicYWRtaW46cGFzczEyMw=="), Err(CredentialError::MalformedScheme));
}

#[test]
fn decode_rejects_missing_token() {
    assert_eq!(decode_pair("Basic"), Err(CredentialError::MissingToken));
}

#[test]
fn decode_rejects_bad_base64() {
    assert_eq!(decode_pair("Basic !!!!"), Err(CredentialError::Base64Error));
    assert_eq!(basic_from_str("YWRt*W46").map(|b| b.username), Err(CredentialError::Base64Error));
}

#[test]
fn decode_rejects_bad_utf8() {
    // "_w==" is the single byte 0xff
    assert_eq!(decode_pair("Basic _w=="), Err(CredentialError::Utf8Error));
}

#[test]
fn decode_rejects_missing_separator() {
    // "admin" in base64
    assert_eq!(decode_pair("Basic YWRtaW4="), Err(CredentialError::MissingSeparator));
}

#[test]
fn decode_reads_second_token_only() {
    assert_eq!(
        decode_pair("Basic YWRtaW46cGFzczEyMw== trailing"),
        Ok(("admin".to_string(), "pass123".to_string()))
    );
    assert_eq!(decode_pair("Basic  YWRtaW46cGFzczEyMw=="), Err(CredentialError::MissingSeparator));
}

#[test]
fn token_decodes_directly() {
    let basic = basic_from_str("YWRtaW46cGFzczEyMw==").unwrap();
    assert_eq!(basic.username, "admin");
    assert_eq!(basic.password, "pass123");
}

#[test]
fn encoded_token_splits_cleanly() {
    let encoded = auth_encode_string("a b", "c d e");
    let parts: Vec<&str> = encoded.split(' ').collect();
    assert_eq!(parts.len(), 2);
    assert_eq!(parts[0], "Basic");
    let basic = basic_from_str(parts[1]).unwrap();
    assert_eq!((basic.username.as_str(), basic.password.as_str()), ("a b", "c d e"));
}
