//! The `Basic <base64(user:pass)>` credential format, in the URL-safe base64
//! alphabet.

use vstd::prelude::*;
use vstd::utf8::{decode_utf8, encode_utf8, valid_utf8};

use crate::text::{
    byte_len, lemma_split_first_absent, lemma_split_first_found, lemma_split_first_none,
    split_first, split_once,
};

verus! {

broadcast use {vstd::utf8::encode_utf8_valid_utf8, vstd::utf8::encode_utf8_decode_utf8};

/// The padded URL-safe base64 encoding of `bytes`.
pub uninterp spec fn b64_url_encoding(bytes: Seq<u8>) -> Seq<char>;

/// The bytes written in `text` in URL-safe base64, if `text` is valid there.
pub uninterp spec fn b64_url_decoding(text: Seq<char>) -> Option<Seq<u8>>;

/// A character of the URL-safe base64 alphabet, or the padding character.
pub open spec fn is_url_safe_b64_char(c: char) -> bool {
    ('A' <= c && c <= 'Z') || ('a' <= c && c <= 'z') || ('0' <= c && c <= '9') || c == '-' || c
        == '_' || c == '='
}

/// Relies on `base64::encode_config` with `base64::URL_SAFE`: it returns the
/// padded URL-safe encoding, written in that alphabet only, which
/// `base64::decode_config` with the same configuration turns back into `bytes`.
/// It panics only where the encoded length overflows `usize`, which no input of
/// at most `isize::MAX` bytes makes it do.
#[verifier::external_body]
fn encode_url_safe(bytes: &[u8]) -> (r: String)
    requires
        bytes@.len() <= isize::MAX,
    ensures
        r@ == b64_url_encoding(bytes@),
        forall|i: int| 0 <= i < r@.len() ==> is_url_safe_b64_char(#[trigger] r@[i]),
        b64_url_decoding(r@) == Some(bytes@),
{
    base64::encode_config(bytes, base64::URL_SAFE)
}

/// Relies on `base64::decode_config` with `base64::URL_SAFE`: it fails exactly
/// where `text` is not valid base64 in that alphabet. It panics only where the
/// length of `text` plus seven overflows `usize`.
#[verifier::external_body]
fn decode_url_safe(text: &str) -> (r: Option<Vec<u8>>)
    requires
        encode_utf8(text@).len() <= usize::MAX - 7,
    ensures
        r is Some <==> b64_url_decoding(text@) is Some,
        r matches Some(bytes) ==> b64_url_decoding(text@) == Some(bytes@),
{
    base64::decode_config(text, base64::URL_SAFE).ok()
}

/// Relies on `String::from_utf8`: it succeeds exactly on valid UTF-8, with the
/// characters that the bytes encode.
#[verifier::external_body]
fn string_from_utf8(bytes: Vec<u8>) -> (r: Option<String>)
    ensures
        r is Some <==> valid_utf8(bytes@),
        r matches Some(s) ==> s@ == decode_utf8(bytes@),
{
    String::from_utf8(bytes).ok()
}

/// A credential presented as `Basic` authorisation: a user name and password.
#[derive(Debug, Clone)]
pub struct Basic {
    pub username: String,
    pub password: String,
}

/// Why a presented credential string could not be decoded.
#[derive(Debug, Clone, Copy, PartialEq, Eq, Structural)]
pub enum CredentialError {
    /// The first space-delimited token is not `Basic`.
    MalformedScheme,
    /// Nothing follows the scheme.
    MissingToken,
    /// The token is not valid URL-safe base64.
    Base64Error,
    /// The decoded bytes are not valid UTF-8.
    Utf8Error,
    /// The decoded text holds no `:`.
    MissingSeparator,
}

/// A decoding outcome, with the credential as its user name and password.
pub open spec fn credential_view(r: Result<Basic, CredentialError>) -> Result<
    (Seq<char>, Seq<char>),
    CredentialError,
> {
    match r {
        Ok(b) => Ok((b.username@, b.password@)),
        Err(e) => Err(e),
    }
}

/// The authorisation scheme this gateway accepts.
pub open spec fn basic_scheme() -> Seq<char> {
    seq!['B', 'a', 's', 'i', 'c']
}

/// The text before the first space of `s`, or all of `s` if it holds none.
pub open spec fn first_token(s: Seq<char>) -> Seq<char> {
    match split_first(s, ' ') {
        Some(parts) => parts.0,
        None => s,
    }
}

/// The second space-delimited token of `s`, if `s` holds a space.
pub open spec fn second_token(s: Seq<char>) -> Option<Seq<char>> {
    match split_first(s, ' ') {
        Some(parts) => Some(first_token(parts.1)),
        None => None,
    }
}

/// The user name and password written in a base64 token: the decoded text split
/// at its first `:`.
pub open spec fn token_credential(token: Seq<char>) -> Result<
    (Seq<char>, Seq<char>),
    CredentialError,
> {
    match b64_url_decoding(token) {
        None => Err(CredentialError::Base64Error),
        Some(bytes) => if !valid_utf8(bytes) {
            Err(CredentialError::Utf8Error)
        } else {
            match split_first(decode_utf8(bytes), ':') {
                None => Err(CredentialError::MissingSeparator),
                Some(parts) => Ok(parts),
            }
        },
    }
}

/// The user name and password written in an authorisation string.
pub open spec fn decoded_credential(input: Seq<char>) -> Result<
    (Seq<char>, Seq<char>),
    CredentialError,
> {
    if first_token(input) != basic_scheme() {
        Err(CredentialError::MalformedScheme)
    } else {
        match second_token(input) {
            None => Err(CredentialError::MissingToken),
            Some(token) => token_credential(token),
        }
    }
}

/// `user:pass`, the text that a credential encodes.
pub open spec fn joined_credential(user: Seq<char>, pass: Seq<char>) -> Seq<char> {
    user + seq![':'] + pass
}

/// The authorisation string for a user name and password.
pub open spec fn encoded_credential(user: Seq<char>, pass: Seq<char>) -> Seq<char> {
    basic_scheme() + seq![' '] + b64_url_encoding(encode_utf8(joined_credential(user, pass)))
}

/// Encodes a user name and password as `Basic <base64(user:pass)>`.
///
/// The token after `Basic ` is written in the URL-safe base64 alphabet only.
/// Decoding the result, or its token alone, gives back the user name and
/// password whenever the user name holds no `:`; in general the decoded text is
/// split at its first `:`.
pub fn auth_encode_string(user: &str, pass: &str) -> (r: String)
    ensures
        r@ == encoded_credential(user@, pass@),
        forall|i: int| 6 <= i < r@.len() ==> is_url_safe_b64_char(#[trigger] r@[i]),
        !user@.contains(':') ==> (token_credential(r@.skip(6)) matches Ok(c) && c == (
            user@,
            pass@,
        )),
        decoded_credential(r@) matches Ok(c) && c == split_first(
            joined_credential(user@, pass@),
            ':',
        )->0,
        !user@.contains(':') ==> (decoded_credential(r@) matches Ok(c) && c == (user@, pass@)),
{
    let mut joined = user.to_owned();
    joined.append(":");
    joined.append(pass);
    proof {
        reveal_strlit(":");
        assert(joined@ =~= joined_credential(user@, pass@));
    }
    byte_len(joined.as_str());
    let encoded = encode_url_safe(joined.as_str().as_bytes());
    let mut r = "Basic ".to_owned();
    r.append(encoded.as_str());
    proof {
        reveal_strlit("Basic ");
        let scheme = basic_scheme();
        let joined_s = joined_credential(user@, pass@);
        assert(r@ =~= scheme + seq![' '] + encoded@);
        assert(r@.take(5) =~= scheme);
        assert(!scheme.contains(' '));
        lemma_split_first_found(r@, ' ', 5);
        assert(r@.skip(6) =~= encoded@);
        assert(!encoded@.contains(' ')) by {
            if encoded@.contains(' ') {
                let k = choose|k: int| 0 <= k < encoded@.len() && #[trigger] encoded@[k] == ' ';
                assert(is_url_safe_b64_char(encoded@[k]));
            }
        }
        lemma_split_first_absent(encoded@, ' ');
        assert(joined_s[user@.len() as int] == ':');
        if split_first(joined_s, ':') is None {
            lemma_split_first_none(joined_s, ':');
        }
        if !user@.contains(':') {
            assert(joined_s.take(user@.len() as int) =~= user@);
            assert(joined_s.skip(user@.len() as int + 1) =~= pass@);
            lemma_split_first_found(joined_s, ':', user@.len() as int);
        }
    }
    r
}

/// Reads the user name and password from a base64 token: the decoded text
/// split at its first `:`, the password possibly empty.
pub fn basic_from_str(token: &str) -> (r: Result<Basic, CredentialError>)
    ensures
        credential_view(r) == token_credential(token@),
{
    byte_len(token);
    let bytes = match decode_url_safe(token) {
        None => return Err(CredentialError::Base64Error),
        Some(bytes) => bytes,
    };
    let text = match string_from_utf8(bytes) {
        None => return Err(CredentialError::Utf8Error),
        Some(text) => text,
    };
    match split_once(text.as_str(), ':') {
        None => Err(CredentialError::MissingSeparator),
        Some((username, password)) => Ok(Basic { username, password }),
    }
}

/// Decodes an authorisation string of the form `Basic <base64(user:pass)>`.
pub fn auth_decode_string(input: &str) -> (r: Result<Basic, CredentialError>)
    ensures
        credential_view(r) == decoded_credential(input@),
{
    let scheme = "Basic".to_owned();
    proof {
        reveal_strlit("Basic");
        assert(scheme@ =~= basic_scheme());
    }
    match split_once(input, ' ') {
        None => {
            if input.to_owned() == scheme {
                Err(CredentialError::MissingToken)
            } else {
                Err(CredentialError::MalformedScheme)
            }
        },
        Some((first, rest)) => {
            if !(first == scheme) {
                return Err(CredentialError::MalformedScheme);
            }
            let token = match split_once(rest.as_str(), ' ') {
                Some((token, _)) => token,
                None => rest,
            };
            basic_from_str(token.as_str())
        },
    }
}

} // verus!
