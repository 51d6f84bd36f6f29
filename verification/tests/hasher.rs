use booking_auth::hasher::hash_password;
use booking_auth::hasher::verify_password;
use rs_sha512::HasherContext;
use rs_sha512::Sha512State;
use std::hash::BuildHasher;
use std::hash::Hasher;

#[test]
fn digest_verifies_for_its_own_password_and_login() {
    let digest = hash_password("correct horse", "ivan");
    assert_eq!(digest.len(), 128);
    assert!(verify_password("correct horse", "ivan", &digest));
    assert!(!verify_password("correct horse", "petr", &digest));
    assert!(!verify_password("wrong horse", "ivan", &digest));
}

#[test]
fn digest_has_the_expected_value() {
    assert_eq!(
        hash_password("password123", "ivan"),
        "87101b276e72e7de225c7f6518ccd60c4950de1f29ee7d3898f11a453a542fd3affb66d839f73726eda77a8a0588ae1711e6d0e8a05e33e8a72cc5b80067309b"
    );
}

#[test]
fn digest_of_unicode_input_hashes_the_raw_bytes() {
    assert_eq!(
        hash_password("пароль-Ёж", "Данила"),
        "50ae29565add45c529bfd12f07efff5f67d97b994b15a700aff1a1e03f1de6fec030c4c6df85d4af1d4d2d1778a5a1cd2a6ba4579f94d0e4774796c0edc6ce82"
    );
}

#[test]
fn digest_of_empty_fields_is_the_digest_of_the_salt() {
    assert_eq!(
        hash_password("", ""),
        "febad09dfadc5104cbc271c81ea89f15ac90af47056611c889d4a9ce2ad865f04200d467244165ecc80aff36d0468401452488a2b93f69368ee3e3a31734ba79"
    );
}

#[test]
fn digest_equals_two_writes_to_the_hasher() {
    let password = "hunter2hunter2";
    let login = "maria";
    let mut hasher = Sha512State::default().build_hasher();
    hasher.write(password.as_bytes());
    hasher.write(format!("СВО{}aboba_AntiHohol", login).as_bytes());
    let bytes_result = HasherContext::finish(&mut hasher);
    assert_eq!(hash_password(password, login), format!("{bytes_result:02x}"));
}

#[test]
fn digest_is_deterministic() {
    assert_eq!(hash_password("same", "same"), hash_password("same", "same"));
}

#[test]
fn digest_differs_between_logins_with_one_password() {
    assert_ne!(hash_password("password123", "ivan"), hash_password("password123", "ivana"));
    assert_ne!(hash_password("password123", "a"), hash_password("password123", "b"));
}

#[test]
fn digest_is_lower_case_hexadecimal_whatever_the_input() {
    let long = "я".repeat(5000);
    for (password, login) in [("", ""), ("пароль", "логин"), (long.as_str(), "x"), ("\0", "\n")] {
        let digest = hash_password(password, login);
        assert_eq!(digest.len(), 128);
        assert!(digest.chars().all(|c| matches!(c, '0'..='9' | 'a'..='f')));
    }
}

#[test]
fn digest_is_not_the_input() {
    let digest = hash_password("password123", "ivan");
    assert_ne!(digest, "password123");
    assert!(digest.chars().all(|c| c.is_ascii_hexdigit() && !c.is_ascii_uppercase()));
}

#[test]
fn verify_rejects_a_digest_in_upper_case() {
    let digest = hash_password("password123", "ivan").to_uppercase();
    assert!(!verify_password("password123", "ivan", &digest));
}
