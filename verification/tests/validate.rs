use booking_auth::models::AuthError;
use booking_auth::models::UserLoginForm;
use booking_auth::models::UserRegisterForm;
use booking_auth::validate::check_register_form;
use booking_auth::validate::collect_login_violations;
use booking_auth::validate::collect_register_violations;
use booking_auth::validate::is_accepted;
use booking_auth::validate::validate_login_form;
use booking_auth::validate::LOGIN_PATTERN;
use booking_auth::validate::NAME_PATTERN;

fn register_form(login: &str, name: &str, password: &str) -> UserRegisterForm {
    UserRegisterForm {
        login: login.to_string(),
        name: name.to_string(),
        password: password.to_string(),
    }
}

fn login_form(login: &str, password: &str) -> UserLoginForm {
    UserLoginForm { login: login.to_string(), password: password.to_string() }
}

#[test]
fn registration_with_short_password_reports_only_the_password() {
    let form = register_form("ab", "Ivan Petrov", "short");
    assert_eq!(check_register_form(&form, false), Err(vec![AuthError::BadPassword]));
}

#[test]
fn login_with_empty_login_reports_only_the_login() {
    let form = login_form("", "x");
    assert_eq!(validate_login_form(&form), Err(vec![AuthError::BadLogin]));
}

#[test]
fn registration_in_order_passes() {
    let form = register_form("danila_2024", "Данила Григорьев", "s3cret-pass");
    assert_eq!(check_register_form(&form, false), Ok(()));
}

#[test]
fn registration_reports_every_violation_at_once() {
    let form = register_form(" ", "###", "");
    assert_eq!(
        check_register_form(&form, true),
        Err(vec![
            AuthError::BadName,
            AuthError::BadLogin,
            AuthError::AlreadyExists,
            AuthError::BadPassword,
        ])
    );
}

#[test]
fn registration_reports_a_taken_login_alone() {
    let form = register_form("danila", "Данила", "s3cret-pass");
    assert_eq!(check_register_form(&form, true), Err(vec![AuthError::AlreadyExists]));
}

#[test]
fn password_length_bounds() {
    let ok8 = register_form("danila", "Данила", "12345678");
    assert_eq!(check_register_form(&ok8, false), Ok(()));
    let bad7 = register_form("danila", "Данила", "1234567");
    assert_eq!(check_register_form(&bad7, false), Err(vec![AuthError::BadPassword]));
    let ok256 = register_form("danila", "Данила", &"a".repeat(256));
    assert_eq!(check_register_form(&ok256, false), Ok(()));
    let bad257 = register_form("danila", "Данила", &"a".repeat(257));
    assert_eq!(check_register_form(&bad257, false), Err(vec![AuthError::BadPassword]));
}

#[test]
fn password_length_is_not_bounded_by_the_login() {
    let long_login = "a".repeat(128);
    let form = register_form(&long_login, "Данила", "12345678");
    assert_eq!(check_register_form(&form, false), Ok(()));
}

#[test]
fn login_length_bounds() {
    let ok128 = register_form(&"a".repeat(128), "Данила", "12345678");
    assert_eq!(check_register_form(&ok128, false), Ok(()));
    let bad129 = register_form(&"a".repeat(129), "Данила", "12345678");
    assert_eq!(check_register_form(&bad129, false), Err(vec![AuthError::BadLogin]));
}

#[test]
fn name_length_is_counted_in_bytes() {
    let ok = register_form("danila", &"я".repeat(64), "12345678");
    assert_eq!(check_register_form(&ok, false), Ok(()));
    let bad = register_form("danila", &"я".repeat(65), "12345678");
    assert_eq!(check_register_form(&bad, false), Err(vec![AuthError::BadName]));
}

#[test]
fn name_holds_letters_spaces_and_hyphens_only() {
    let latin = register_form("danila", "Ivan", "12345678");
    assert_eq!(check_register_form(&latin, false), Ok(()));
    let hyphen = register_form("danila", "Jean-Luc", "12345678");
    assert_eq!(check_register_form(&hyphen, false), Ok(()));
    let cyrillic = register_form("danila", "Анна-Мария Иванова", "12345678");
    assert_eq!(check_register_form(&cyrillic, false), Ok(()));
    let with_yo = register_form("danila", "Семён Алёхин", "12345678");
    assert_eq!(check_register_form(&with_yo, false), Ok(()));
    let empty = register_form("danila", "", "12345678");
    assert_eq!(check_register_form(&empty, false), Err(vec![AuthError::BadName]));
    let markup = register_form("user_1", "Ivan Petrov <b>", "password1");
    assert_eq!(check_register_form(&markup, false), Err(vec![AuthError::BadName]));
    let digit = register_form("danila", "Ivan 2", "12345678");
    assert_eq!(check_register_form(&digit, false), Err(vec![AuthError::BadName]));
    let mixed = register_form("danila", "a<b", "12345678");
    assert_eq!(check_register_form(&mixed, false), Err(vec![AuthError::BadName]));
}

#[test]
fn login_holds_allowed_characters_only() {
    let spaced = register_form("a b", "Ivan", "12345678");
    assert_eq!(check_register_form(&spaced, false), Err(vec![AuthError::BadLogin]));
    let markup = register_form("<x>", "Ivan", "12345678");
    assert_eq!(check_register_form(&markup, false), Err(vec![AuthError::BadLogin]));
    let marks = register_form("a-_()*&^%$#@!+=/,.{}[]z", "Ivan", "12345678");
    assert_eq!(check_register_form(&marks, false), Ok(()));
}

#[test]
fn password_holds_allowed_characters_only() {
    let spaced = register_form("danila", "Ivan", "pass word 1");
    assert_eq!(check_register_form(&spaced, false), Err(vec![AuthError::BadPassword]));
    let quoted = register_form("danila", "Ivan", "password\"1\"");
    assert_eq!(check_register_form(&quoted, false), Err(vec![AuthError::BadPassword]));
}

#[test]
fn login_form_with_a_space_in_the_login_reports_the_login() {
    let form = login_form("a b", "x");
    assert_eq!(validate_login_form(&form), Err(vec![AuthError::BadLogin]));
}

#[test]
fn login_form_fields_hold_allowed_characters_only() {
    assert_eq!(validate_login_form(&login_form("<x>", "x")), Err(vec![AuthError::BadLogin]));
    assert_eq!(validate_login_form(&login_form("x", "<x>")), Err(vec![AuthError::BadPassword]));
    assert_eq!(validate_login_form(&login_form("abc\n", "x")), Err(vec![AuthError::BadLogin]));
    assert_eq!(validate_login_form(&login_form("\nabc", "x")), Err(vec![AuthError::BadLogin]));
    assert_eq!(validate_login_form(&login_form("x", "a\nb")), Err(vec![AuthError::BadPassword]));
    assert_eq!(validate_login_form(&login_form("логин_1", "пароль!")), Ok(()));
}

#[test]
fn login_form_has_no_length_rule() {
    let form = login_form(&"a".repeat(500), "x");
    assert_eq!(validate_login_form(&form), Ok(()));
}

#[test]
fn login_form_reports_both_fields() {
    let form = login_form(" ", "");
    assert_eq!(
        validate_login_form(&form),
        Err(vec![AuthError::BadLogin, AuthError::BadPassword])
    );
}

#[test]
fn login_form_reports_the_password_alone() {
    let form = login_form("danila", "   ");
    assert_eq!(validate_login_form(&form), Err(vec![AuthError::BadPassword]));
}

#[test]
fn patterns_accept_their_characters() {
    assert!(is_accepted(NAME_PATTERN, "Анна-Мария Иванова"));
    assert!(is_accepted(NAME_PATTERN, "Anna"));
    assert!(is_accepted(NAME_PATTERN, " "));
    assert!(is_accepted(NAME_PATTERN, "-"));
    assert!(!is_accepted(NAME_PATTERN, "Anna1"));
    assert!(!is_accepted(NAME_PATTERN, "Anna_Maria"));
    assert!(!is_accepted(NAME_PATTERN, "Anna\n"));
    assert!(!is_accepted(NAME_PATTERN, ""));
    assert!(is_accepted(LOGIN_PATTERN, "user_01"));
    assert!(is_accepted(LOGIN_PATTERN, "[]"));
    assert!(is_accepted(LOGIN_PATTERN, "-"));
    assert!(is_accepted(LOGIN_PATTERN, "^$"));
    assert!(is_accepted(LOGIN_PATTERN, "логин"));
    assert!(!is_accepted(LOGIN_PATTERN, " ~ "));
    assert!(!is_accepted(LOGIN_PATTERN, "a b"));
    assert!(!is_accepted(LOGIN_PATTERN, "a~"));
    assert!(!is_accepted(LOGIN_PATTERN, "~a"));
    assert!(!is_accepted(LOGIN_PATTERN, "a\\b"));
    assert!(!is_accepted(LOGIN_PATTERN, ""));
}

#[test]
fn patterns_are_anchored_at_both_ends() {
    assert!(NAME_PATTERN.starts_with('^') && NAME_PATTERN.ends_with('$'));
    assert!(LOGIN_PATTERN.starts_with('^') && LOGIN_PATTERN.ends_with('$'));
}

#[test]
fn search_depends_on_pattern_and_text() {
    assert!(is_accepted("[a-z]+", "abc"));
    assert!(!is_accepted("[a-z]+", "123"));
    assert!(is_accepted("[0-9]+", "123"));
    assert!(!is_accepted("abc", "[a-z]+"));
}

#[test]
fn a_pattern_that_does_not_compile_accepts_nothing() {
    assert!(!is_accepted("[", "["));
    assert!(!is_accepted("(", "anything"));
}

#[test]
fn register_violations_keep_their_order() {
    assert_eq!(collect_register_violations(false, false, false, false), vec![]);
    assert_eq!(
        collect_register_violations(true, false, true, false),
        vec![AuthError::BadName, AuthError::AlreadyExists]
    );
    assert_eq!(
        collect_register_violations(false, true, false, true),
        vec![AuthError::BadLogin, AuthError::BadPassword]
    );
}

#[test]
fn login_violations_keep_their_order() {
    assert_eq!(collect_login_violations(false, false), vec![]);
    assert_eq!(collect_login_violations(true, false), vec![AuthError::BadLogin]);
    assert_eq!(collect_login_violations(false, true), vec![AuthError::BadPassword]);
    assert_eq!(
        collect_login_violations(true, true),
        vec![AuthError::BadLogin, AuthError::BadPassword]
    );
}
