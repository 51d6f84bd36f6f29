//! Credential hasher: a salted SHA-512 digest that binds the login into the
//! hashed input.

use crate::text::str_eq;
use rs_sha512::HasherContext;
use rs_sha512::Sha512State;
use std::hash::BuildHasher;
use std::hash::Hasher;
use vstd::prelude::*;
use vstd::utf8::*;

verus! {

/// The lower-case hexadecimal SHA-512 digest of a byte string, as the
/// `rs_sha512` hasher computes it.
pub uninterp spec fn sha512_hex_of(data: Seq<u8>) -> Seq<char>;

/// Number of characters in a hexadecimal SHA-512 digest.
pub const DIGEST_HEX_LEN: usize = 128;

/// Whether a character is a decimal digit or one of the letters `a` to `f`.
pub open spec fn is_lower_hex(c: char) -> bool {
    ('0' <= c && c <= '9') || ('a' <= c && c <= 'f')
}

/// Whether a text has the shape of a digest: 128 lower-case hexadecimal
/// digits.
pub open spec fn is_hex_digest(text: Seq<char>) -> bool {
    &&& text.len() == DIGEST_HEX_LEN
    &&& forall|i: int| 0 <= i < text.len() ==> is_lower_hex(#[trigger] text[i])
}

/// Text hashed between the password and the login.
pub const SALT_PREFIX: &'static str = "СВО";

/// Text hashed after the login.
pub const SALT_SUFFIX: &'static str = "aboba_AntiHohol";

/// Feeds `data` to a fresh `rs_sha512::Sha512Hasher` (`Hasher::write`), takes
/// the digest with `HasherContext::finish` and formats it with `{:02x}`.
///
/// Trusted: the text returned is the digest named by [`sha512_hex_of`], a
/// function of the bytes alone, and it has the shape of a digest: the
/// formatter writes each of the 64 bytes as two lower-case hexadecimal
/// digits.
#[verifier::external_body]
pub(crate) fn sha512_hex(data: &[u8]) -> (digest: String)
    ensures
        digest@ == sha512_hex_of(data@),
        is_hex_digest(digest@),
{
    let mut hasher = Sha512State::default().build_hasher();
    hasher.write(data);
    let bytes_result = HasherContext::finish(&mut hasher);
    format!("{bytes_result:02x}")
}

/// The bytes that are hashed for a credential: the password, the salt prefix,
/// the login and the salt suffix, each in its UTF-8 encoding.
pub open spec fn credential_bytes(password: Seq<char>, login: Seq<char>) -> Seq<u8> {
    encode_utf8(password) + encode_utf8(SALT_PREFIX@) + encode_utf8(login) + encode_utf8(
        SALT_SUFFIX@,
    )
}

/// The stored digest of a password for a login.
pub open spec fn credential_digest(password: Seq<char>, login: Seq<char>) -> Seq<char> {
    sha512_hex_of(credential_bytes(password, login))
}

/// Whether `stored_digest` is the digest of `password` for `login`.
pub open spec fn digest_matches(
    password: Seq<char>,
    login: Seq<char>,
    stored_digest: Seq<char>,
) -> bool {
    stored_digest == credential_digest(password, login)
}

/// Computes the digest stored in place of `password` for the account `login`.
pub fn hash_password(password: &str, login: &str) -> (digest: String)
    ensures
        digest@ == credential_digest(password@, login@),
        is_hex_digest(digest@),
{
    let mut input: Vec<u8> = Vec::new();
    input.extend_from_slice(password.as_bytes());
    input.extend_from_slice(SALT_PREFIX.as_bytes());
    input.extend_from_slice(login.as_bytes());
    input.extend_from_slice(SALT_SUFFIX.as_bytes());
    assert(input@ =~= credential_bytes(password@, login@));
    sha512_hex(input.as_slice())
}

/// Recomputes the digest of `password` for `login` and compares it with the
/// stored one, character for character.
pub fn verify_password(password: &str, login: &str, stored_digest: &str) -> (matches: bool)
    ensures
        matches == digest_matches(password@, login@, stored_digest@),
{
    let digest = hash_password(password, login);
    str_eq(digest.as_str(), stored_digest)
}

/// A digest computed for a password and a login is accepted for that same
/// password and login.
pub proof fn law_own_digest_verifies(password: Seq<char>, login: Seq<char>)
    ensures
        digest_matches(password, login, credential_digest(password, login)),
{
}

/// The login is part of what is hashed: with one password, two different
/// logins give two different hash inputs.
pub proof fn law_login_changes_hashed_input(
    password: Seq<char>,
    login_a: Seq<char>,
    login_b: Seq<char>,
)
    requires
        login_a != login_b,
    ensures
        credential_bytes(password, login_a) != credential_bytes(password, login_b),
{
    let head = encode_utf8(password) + encode_utf8(SALT_PREFIX@);
    let tail = encode_utf8(SALT_SUFFIX@);
    let a = encode_utf8(login_a);
    let b = encode_utf8(login_b);
    let whole_a = credential_bytes(password, login_a);
    let whole_b = credential_bytes(password, login_b);
    if whole_a == whole_b {
        assert(whole_a.len() == head.len() + a.len() + tail.len());
        assert(whole_b.len() == head.len() + b.len() + tail.len());
        assert(a =~= whole_a.subrange(head.len() as int, (head.len() + a.len()) as int));
        assert(b =~= whole_b.subrange(head.len() as int, (head.len() + b.len()) as int));
        encode_utf8_decode_utf8(login_a);
        encode_utf8_decode_utf8(login_b);
        assert(false);
    }
}

} // verus!
